//! The list of objects that an in-memory backend keeps in place of a
//! database table, with the operations of its service: insert, get by id,
//! update and delete.

use vstd::prelude::*;
use crate::platform::{check_uuid, is_uuid_v4_text, new_uuid_v4, uuid_parse_error};
use crate::memsearch::{listed, text_list, FieldValue};
use crate::text::{join_text, text_eq};

verus! {

/// An object of a resource: its identifier and its data.
#[derive(Debug)]
pub struct StoredObject<D> {
    /// the identifier
    pub id: String,
    /// the data, if any
    pub data: Option<D>,
}

/// Why an operation on a [`MemStore`] was refused.
#[derive(Debug, Clone, PartialEq, Eq)]
pub enum StoreError {
    /// no object has the given identifier: the message
    NotFound(String),
    /// the request lacks what the operation needs: the message
    InvalidArgument(String),
}

/// The mathematical form of a [`StoreError`].
pub enum StoreFailure {
    NotFound(Seq<char>),
    InvalidArgument(Seq<char>),
}

impl View for StoreError {
    type V = StoreFailure;

    open spec fn view(&self) -> StoreFailure {
        match self {
            StoreError::NotFound(m) => StoreFailure::NotFound(m@),
            StoreError::InvalidArgument(m) => StoreFailure::InvalidArgument(m@),
        }
    }
}

/// The objects of one resource, in the order they were inserted.
#[derive(Debug)]
pub struct MemStore<D> {
    objects: Vec<StoredObject<D>>,
}

impl<D> View for MemStore<D> {
    type V = Seq<StoredObject<D>>;

    closed spec fn view(&self) -> Seq<StoredObject<D>> {
        self.objects@
    }
}

/// The first object with identifier `id`, if any.
pub open spec fn lookup<D>(s: Seq<StoredObject<D>>, id: Seq<char>) -> Option<StoredObject<D>>
    decreases s.len(),
{
    if s.len() == 0 {
        None
    } else if s[0].id@ == id {
        Some(s[0])
    } else {
        lookup(s.drop_first(), id)
    }
}

/// The position of the first object with identifier `id`, if any.
pub open spec fn position_of<D>(s: Seq<StoredObject<D>>, id: Seq<char>) -> Option<int>
    decreases s.len(),
{
    if s.len() == 0 {
        None
    } else if s[0].id@ == id {
        Some(0)
    } else {
        match position_of(s.drop_first(), id) {
            Some(i) => Some(i + 1),
            None => None,
        }
    }
}

/// Some object has identifier `id`.
pub open spec fn has_id<D>(s: Seq<StoredObject<D>>, id: Seq<char>) -> bool {
    exists|i: int| 0 <= i < s.len() && #[trigger] s[i].id@ == id
}

/// The objects whose identifier is not `id`, in order.
pub open spec fn without_id<D>(s: Seq<StoredObject<D>>, id: Seq<char>) -> Seq<StoredObject<D>>
    decreases s.len(),
{
    if s.len() == 0 {
        Seq::empty()
    } else if s.last().id@ == id {
        without_id(s.drop_last(), id)
    } else {
        without_id(s.drop_last(), id).push(s.last())
    }
}

/// The message for an identifier that no object of `resource` has.
pub open spec fn not_found_message(resource: Seq<char>, id: Seq<char>) -> Seq<char> {
    "No ["@ + resource + "] found for specified uuid: "@ + id
}

/// The position of the first object with identifier `id` is `i`.
pub proof fn lemma_position_of<D>(s: Seq<StoredObject<D>>, id: Seq<char>, i: int)
    requires
        0 <= i < s.len(),
        s[i].id@ == id,
        forall|j: int| 0 <= j < i ==> s[j].id@ != id,
    ensures
        position_of(s, id) == Some(i),
        lookup(s, id) == Some(s[i]),
    decreases i,
{
    if i > 0 {
        lemma_position_of(s.drop_first(), id, i - 1);
    }
}

/// No object has identifier `id`.
pub proof fn lemma_absent<D>(s: Seq<StoredObject<D>>, id: Seq<char>)
    requires
        forall|j: int| 0 <= j < s.len() ==> s[j].id@ != id,
    ensures
        position_of(s, id) is None,
        lookup(s, id) is None,
        !has_id(s, id),
    decreases s.len(),
{
    if s.len() > 0 {
        lemma_absent(s.drop_first(), id);
    }
}

impl<D> MemStore<D> {
    /// An empty store.
    pub fn new() -> (r: Self)
        ensures
            r@ == Seq::<StoredObject<D>>::empty(),
    {
        MemStore { objects: Vec::new() }
    }

    /// How many objects the store holds.
    pub fn len(&self) -> (r: usize)
        ensures
            r == self@.len(),
    {
        self.objects.len()
    }

    /// The object at position `i`.
    pub fn object_at(&self, i: usize) -> (r: &StoredObject<D>)
        requires
            i < self@.len(),
        ensures
            *r == self@[i as int],
    {
        &self.objects[i]
    }

    /// The objects, in order.
    pub fn objects(&self) -> (r: &Vec<StoredObject<D>>)
        ensures
            r@ == self@,
    {
        &self.objects
    }

    fn find(&self, id: &str) -> (r: Option<usize>)
        ensures
            match r {
                Some(i) => i < self@.len() && position_of(self@, id@) == Some(i as int) && lookup(
                    self@,
                    id@,
                ) == Some(self@[i as int]) && self@[i as int].id@ == id@ && has_id(self@, id@),
                None => position_of(self@, id@) is None && lookup(self@, id@) is None && !has_id(
                    self@,
                    id@,
                ),
            },
    {
        let mut i: usize = 0;
        while i < self.objects.len()
            invariant
                i <= self@.len(),
                self@ == self.objects@,
                forall|j: int| 0 <= j < i ==> self@[j].id@ != id@,
            decreases self@.len() - i,
        {
            if text_eq(self.objects[i].id.as_str(), id) {
                proof {
                    lemma_position_of(self@, id@, i as int);
                }
                return Some(i);
            }
            i = i + 1;
        }
        proof {
            lemma_absent(self@, id@);
        }
        None
    }

    /// Stores `data` under a newly generated identifier, after every object
    /// already there, and returns the identifier. Storing always succeeds.
    pub fn insert(&mut self, data: D) -> (r: String)
        ensures
            is_uuid_v4_text(r@),
            final(self)@ == old(self)@.push(StoredObject { id: r, data: Some(data) }),
    {
        let id = new_uuid_v4();
        let object = StoredObject { id: id.clone(), data: Some(data) };
        self.objects.push(object);
        id
    }

    /// The first object with identifier `id`; where there is none, an error
    /// naming the resource and the identifier.
    pub fn get_by_id(&self, id: &str, resource: &str) -> (r: Result<&StoredObject<D>, StoreError>)
        ensures
            match r {
                Ok(o) => lookup(self@, id@) == Some(*o),
                Err(e) => lookup(self@, id@) is None && !has_id(self@, id@) && e@ == StoreFailure::NotFound(
                    not_found_message(resource@, id@),
                ),
            },
    {
        match self.find(id) {
            Some(i) => Ok(&self.objects[i]),
            None => {
                proof {
                    reveal_strlit("No [");
                    reveal_strlit("] found for specified uuid: ");
                }
                let head = join_text("No [", resource);
                let mid = join_text(head.as_str(), "] found for specified uuid: ");
                Err(StoreError::NotFound(join_text(mid.as_str(), id)))
            },
        }
    }

    /// Replaces the data of the first object with identifier `id` and
    /// returns its position. Where no object has that identifier the store
    /// is unchanged and the error is `Not found`; where one has but no data
    /// is given, it is unchanged and the error is `No update data given.`.
    pub fn update(&mut self, id: &str, data: Option<D>) -> (r: Result<usize, StoreError>)
        ensures
            match r {
                Ok(i) => position_of(old(self)@, id@) == Some(i as int) && data is Some
                    && final(self)@ == old(self)@.update(
                    i as int,
                    StoredObject { id: old(self)@[i as int].id, data },
                ),
                Err(e) => final(self)@ == old(self)@ && if has_id(old(self)@, id@) {
                    data is None && e@ == StoreFailure::InvalidArgument("No update data given."@)
                } else {
                    e@ == StoreFailure::NotFound("Not found"@)
                },
            },
    {
        match self.find(id) {
            None => Err(StoreError::NotFound("Not found".to_string())),
            Some(i) => {
                match data {
                    None => Err(StoreError::InvalidArgument("No update data given.".to_string())),
                    Some(d) => {
                        let kept_id = self.objects[i].id.clone();
                        let object = StoredObject { id: kept_id, data: Some(d) };
                        self.objects.set(i, object);
                        Ok(i)
                    },
                }
            },
        }
    }

    /// Removes every object with identifier `id`, keeping the others in
    /// order. Removing always succeeds, also where nothing matches.
    pub fn delete(&mut self, id: &str)
        ensures
            final(self)@ == without_id(old(self)@, id@),
    {
        let ghost start = self.objects@;
        let count = self.objects.len();
        assert(start.len() == count);
        let mut i: usize = 0;
        let mut j: usize = 0;
        proof {
            assert(start.take(0) =~= Seq::<StoredObject<D>>::empty());
            assert(start.skip(0) =~= start);
        }
        while i < self.objects.len()
            invariant
                j <= start.len(),
                self.objects@ == without_id(start.take(j as int), id@) + start.skip(j as int),
                i == without_id(start.take(j as int), id@).len(),
                start == old(self)@,
                start.len() <= usize::MAX,
            decreases self.objects@.len() - i,
        {
            let ghost kept = without_id(start.take(j as int), id@);
            proof {
                assert(j < start.len()) by {
                    if j == start.len() {
                        assert(start.skip(j as int).len() == 0);
                    }
                }
                assert(start.take(j + 1).drop_last() =~= start.take(j as int));
                assert(start.take(j + 1).last() == start[j as int]);
                assert(self.objects@[i as int] == start[j as int]);
            }
            if text_eq(self.objects[i].id.as_str(), id) {
                self.objects.remove(i);
                proof {
                    assert(self.objects@ =~= kept + start.skip(j + 1));
                }
            } else {
                proof {
                    assert(self.objects@ =~= kept.push(start[j as int]) + start.skip(j + 1));
                }
                i = i + 1;
            }
            j = j + 1;
        }
        proof {
            assert(j == start.len()) by {
                if j < start.len() {
                    assert(self.objects@.len() > i);
                }
            }
            assert(start.take(j as int) =~= start);
            assert(start.skip(j as int) =~= Seq::<StoredObject<D>>::empty());
            assert(self.objects@ =~= without_id(start, id@));
        }
    }
}

proof fn lemma_has_id_push<D>(s: Seq<StoredObject<D>>, o: StoredObject<D>, x: Seq<char>)
    ensures
        has_id(s.push(o), x) <==> (has_id(s, x) || o.id@ == x),
{
    let t = s.push(o);
    if has_id(t, x) {
        let i = choose|i: int| 0 <= i < t.len() && #[trigger] t[i].id@ == x;
        if i < s.len() {
            assert(s[i].id@ == x);
        }
    }
    if has_id(s, x) {
        let i = choose|i: int| 0 <= i < s.len() && #[trigger] s[i].id@ == x;
        assert(t[i].id@ == x);
    }
    if o.id@ == x {
        assert(t[s.len() as int].id@ == x);
    }
}

proof fn lemma_has_id_first<D>(s: Seq<StoredObject<D>>, x: Seq<char>)
    requires
        s.len() > 0,
    ensures
        has_id(s, x) <==> (s[0].id@ == x || has_id(s.drop_first(), x)),
{
    if has_id(s, x) {
        let i = choose|i: int| 0 <= i < s.len() && #[trigger] s[i].id@ == x;
        if i > 0 {
            assert(s.drop_first()[i - 1].id@ == x);
        }
    }
    if has_id(s.drop_first(), x) {
        let i = choose|i: int| 0 <= i < s.drop_first().len() && #[trigger] s.drop_first()[i].id@ == x;
        assert(s[i + 1].id@ == x);
    }
    if s[0].id@ == x {
        assert(s[0].id@ == x);
    }
}

proof fn lemma_not_found<D>(s: Seq<StoredObject<D>>, id: Seq<char>)
    requires
        !has_id(s, id),
    ensures
        lookup(s, id) is None,
    decreases s.len(),
{
    if s.len() > 0 {
        lemma_has_id_first(s, id);
        lemma_not_found(s.drop_first(), id);
    }
}

/// What a read gives back after an insert: the object first stored under an
/// identifier is still the one found for it; an identifier that no object
/// had before finds the inserted object if it is the inserted object's,
/// and nothing otherwise.
pub proof fn lemma_get_after_insert<D>(s: Seq<StoredObject<D>>, o: StoredObject<D>, x: Seq<char>)
    ensures
        lookup(s.push(o), x) == if has_id(s, x) {
            lookup(s, x)
        } else if o.id@ == x {
            Some(o)
        } else {
            None
        },
    decreases s.len(),
{
    let t = s.push(o);
    if s.len() == 0 {
        assert(t.drop_first() =~= Seq::<StoredObject<D>>::empty());
        assert(lookup(t.drop_first(), x) is None);
        assert(t[0] == o);
        if has_id(s, x) {
            let i = choose|i: int| 0 <= i < s.len() && #[trigger] s[i].id@ == x;
        }
    } else {
        assert(t.drop_first() =~= s.drop_first().push(o));
        assert(t[0] == s[0]);
        lemma_has_id_first(s, x);
        lemma_get_after_insert(s.drop_first(), o, x);
        if s[0].id@ != x && !has_id(s, x) {
            lemma_not_found(s, x);
        }
    }
}

/// A freshly inserted object is found by its identifier, where no object
/// had that identifier before.
pub proof fn lemma_inserted_object_is_found<D>(s: Seq<StoredObject<D>>, o: StoredObject<D>)
    requires
        !has_id(s, o.id@),
    ensures
        lookup(s.push(o), o.id@) == Some(o),
{
    lemma_get_after_insert(s, o, o.id@);
}

proof fn lemma_lookup_drop_last<D>(s: Seq<StoredObject<D>>, x: Seq<char>)
    requires
        s.len() > 0,
        s.last().id@ != x,
    ensures
        lookup(s, x) == lookup(s.drop_last(), x),
{
    let p = s.drop_last();
    lemma_get_after_insert(p, s.last(), x);
    assert(p.push(s.last()) =~= s);
    if !has_id(p, x) {
        lemma_not_found(p, x);
    }
}

/// The objects left by a delete: none has the deleted identifier, and for
/// any other identifier the same object is found as before.
pub proof fn lemma_without_id_members<D>(s: Seq<StoredObject<D>>, id: Seq<char>, x: Seq<char>)
    ensures
        !has_id(without_id(s, id), id),
        x != id ==> lookup(without_id(s, id), x) == lookup(s, x),
        x != id ==> (has_id(without_id(s, id), x) <==> has_id(s, x)),
    decreases s.len(),
{
    if s.len() == 0 {
        let w = without_id(s, id);
        if has_id(w, id) {
            let i = choose|i: int| 0 <= i < w.len() && #[trigger] w[i].id@ == id;
        }
        if has_id(s, x) {
            let i = choose|i: int| 0 <= i < s.len() && #[trigger] s[i].id@ == x;
        }
    } else {
        let p = s.drop_last();
        let wp = without_id(p, id);
        lemma_without_id_members(p, id, x);
        assert(p.push(s.last()) =~= s);
        lemma_has_id_push(p, s.last(), x);
        lemma_has_id_push(p, s.last(), id);
        if s.last().id@ != id {
            lemma_has_id_push(wp, s.last(), x);
            lemma_has_id_push(wp, s.last(), id);
            if x != id {
                lemma_get_after_insert(wp, s.last(), x);
                lemma_get_after_insert(p, s.last(), x);
                if !has_id(p, x) {
                    lemma_not_found(p, x);
                }
                if !has_id(wp, x) {
                    lemma_not_found(wp, x);
                }
            }
        } else {
            if x != id {
                lemma_lookup_drop_last(s, x);
            }
        }
    }
}

/// What a read gives back after a delete: nothing for the deleted
/// identifier, the same object as before for any other.
pub proof fn lemma_get_after_delete<D>(s: Seq<StoredObject<D>>, id: Seq<char>, x: Seq<char>)
    ensures
        lookup(without_id(s, id), id) is None,
        x != id ==> lookup(without_id(s, id), x) == lookup(s, x),
{
    lemma_without_id_members(s, id, x);
    lemma_not_found(without_id(s, id), id);
}

/// Deleting twice is deleting once.
pub proof fn lemma_delete_idempotent<D>(s: Seq<StoredObject<D>>, id: Seq<char>)
    ensures
        without_id(without_id(s, id), id) == without_id(s, id),
    decreases s.len(),
{
    if s.len() > 0 {
        lemma_delete_idempotent(s.drop_last(), id);
        if s.last().id@ != id {
            let p = without_id(s.drop_last(), id);
            assert(p.push(s.last()).drop_last() =~= p);
        }
    }
}

/// What a read gives back after an update: the updated object, with its
/// identifier kept and the new data, for the updated identifier; the same
/// object as before for any other.
pub proof fn lemma_get_after_update<D>(
    s: Seq<StoredObject<D>>,
    id: Seq<char>,
    i: int,
    data: Option<D>,
    x: Seq<char>,
)
    requires
        position_of(s, id) == Some(i),
    ensures
        0 <= i < s.len(),
        lookup(s.update(i, StoredObject { id: s[i].id, data }), id) == Some(
            StoredObject { id: s[i].id, data },
        ),
        x != id ==> lookup(s.update(i, StoredObject { id: s[i].id, data }), x) == lookup(s, x),
    decreases s.len(),
{
    let t = s.update(i, StoredObject { id: s[i].id, data });
    if s[0].id@ == id {
        assert(i == 0);
        assert(t.drop_first() =~= s.drop_first());
    } else {
        let j = position_of(s.drop_first(), id)->Some_0;
        assert(i == j + 1);
        lemma_get_after_update(s.drop_first(), id, j, data, x);
        assert(t.drop_first() =~= s.drop_first().update(
            j,
            StoredObject { id: s.drop_first()[j].id, data },
        ));
    }
}

/// The identifiers that a link table lists for each object, by the
/// object's identifier: a table with entries only for the objects that
/// have been linked.
pub open spec fn links_view(s: Seq<StoredObject<Vec<String>>>) -> Map<Seq<char>, Seq<Seq<char>>> {
    Map::new(
        |k: Seq<char>| lookup(s, k) is Some,
        |k: Seq<char>|
            match lookup(s, k)->Some_0.data {
                Some(v) => text_list(v@),
                None => Seq::empty(),
            },
    )
}

/// The identifiers linked to `id` so far: none where there is no entry.
pub open spec fn linked_before(m: Map<Seq<char>, Seq<Seq<char>>>, id: Seq<char>) -> Seq<Seq<char>> {
    if m.dom().contains(id) {
        m[id]
    } else {
        Seq::empty()
    }
}

/// The message for an identifier that does not read as a UUID.
pub open spec fn uuid_message(id: Seq<char>, error: Seq<char>) -> Seq<char> {
    "Could not convert provided id String ["@ + id + "] into uuid: "@ + error
}

/// Why a change to the links of object `id` of a resource is refused, if
/// it is: the object does not exist, or its identifier is no UUID.
pub open spec fn link_refusal<D>(
    resources: Seq<StoredObject<D>>,
    id: Seq<char>,
    resource: Seq<char>,
) -> Option<StoreFailure> {
    if !has_id(resources, id) {
        Some(StoreFailure::NotFound(not_found_message(resource, id)))
    } else {
        match uuid_parse_error(id) {
            Some(e) => Some(StoreFailure::NotFound(uuid_message(id, e))),
            None => None,
        }
    }
}

/// The positions, in order, of the objects whose identifier is listed in
/// `ids`.
pub open spec fn matching<O>(s: Seq<StoredObject<O>>, ids: Seq<Seq<char>>) -> Seq<int>
    decreases s.len(),
{
    if s.len() == 0 {
        Seq::empty()
    } else if ids.contains(s.last().id@) {
        matching(s.drop_last(), ids).push(s.len() - 1)
    } else {
        matching(s.drop_last(), ids)
    }
}

/// What fetching the objects linked to `id` gives: an error where the object
/// does not exist; nothing where it has no links; else the positions of the
/// linked objects that exist, an error where none does.
pub open spec fn linked_result<D, O>(
    links: Map<Seq<char>, Seq<Seq<char>>>,
    resources: Seq<StoredObject<D>>,
    others: Seq<StoredObject<O>>,
    id: Seq<char>,
    resource: Seq<char>,
) -> Result<Seq<int>, StoreFailure> {
    if !has_id(resources, id) {
        Err(StoreFailure::NotFound(not_found_message(resource, id)))
    } else if !links.dom().contains(id) {
        Ok(Seq::empty())
    } else if matching(others, links[id]).len() == 0 {
        Err(StoreFailure::NotFound(not_found_message(resource, id)))
    } else {
        Ok(matching(others, links[id]))
    }
}

/// The table of links from the objects of one resource to those of another:
/// for each linked object, the identifiers linked to it, in the order they
/// were linked.
#[derive(Debug)]
pub struct MemLinks {
    entries: MemStore<Vec<String>>,
}

impl View for MemLinks {
    type V = Map<Seq<char>, Seq<Seq<char>>>;

    closed spec fn view(&self) -> Map<Seq<char>, Seq<Seq<char>>> {
        links_view(self.entries@)
    }
}

fn clone_ids(v: &Vec<String>) -> (r: Vec<String>)
    ensures
        text_list(r@) == text_list(v@),
{
    let r = v.clone();
    proof {
        assert forall|i: int| 0 <= i < v@.len() implies r@[i] == v@[i] by {
            assert(cloned::<String>(v@[i], r@[i]));
        }
        assert(text_list(r@) =~= text_list(v@));
    }
    r
}

fn refusal<D>(id: &str, resources: &MemStore<D>, resource: &str) -> (r: Result<(), StoreError>)
    ensures
        match r {
            Ok(()) => link_refusal(resources@, id@, resource@) is None,
            Err(e) => link_refusal(resources@, id@, resource@) == Some(e@),
        },
{
    match resources.find(id) {
        None => {
            proof {
                reveal_strlit("No [");
                reveal_strlit("] found for specified uuid: ");
            }
            let head = join_text("No [", resource);
            let mid = join_text(head.as_str(), "] found for specified uuid: ");
            Err(StoreError::NotFound(join_text(mid.as_str(), id)))
        },
        Some(_) => match check_uuid(id) {
            Ok(()) => Ok(()),
            Err(e) => {
                proof {
                    reveal_strlit("Could not convert provided id String [");
                    reveal_strlit("] into uuid: ");
                }
                let head = join_text("Could not convert provided id String [", id);
                let mid = join_text(head.as_str(), "] into uuid: ");
                Err(StoreError::NotFound(join_text(mid.as_str(), e.as_str())))
            },
        },
    }
}

impl MemLinks {
    /// A table without links.
    pub fn new() -> (r: Self)
        ensures
            r@ == Map::<Seq<char>, Seq<Seq<char>>>::empty(),
    {
        let r = MemLinks { entries: MemStore::new() };
        proof {
            assert(r@ =~= Map::<Seq<char>, Seq<Seq<char>>>::empty());
        }
        r
    }

    fn put(&mut self, id: String, ids: Vec<String>)
        ensures
            final(self)@ == old(self)@.insert(id@, text_list(ids@)),
    {
        let ghost s = self.entries@;
        let ghost t = text_list(ids@);
        match self.entries.find(id.as_str()) {
            Some(i) => {
                let kept_id = self.entries.objects[i].id.clone();
                let object = StoredObject { id: kept_id, data: Some(ids) };
                self.entries.objects.set(i, object);
                proof {
                    assert forall|k: Seq<char>| true implies (#[trigger] lookup(self.entries@, k) is Some
                        <==> (lookup(s, k) is Some || k == id@)) && (lookup(self.entries@, k) is Some
                        ==> lookup(self.entries@, k) == if k == id@ {
                        Some(StoredObject { id: s[i as int].id, data: Some(ids) })
                    } else {
                        lookup(s, k)
                    }) by {
                        lemma_get_after_update(s, id@, i as int, Some(ids), k);
                    }
                    assert(links_view(self.entries@) =~= links_view(s).insert(id@, t));
                }
            },
            None => {
                let ghost o = StoredObject { id: id, data: Some(ids) };
                self.entries.objects.push(StoredObject { id, data: Some(ids) });
                proof {
                    assert(self.entries@ == s.push(o));
                    assert forall|k: Seq<char>| true implies (#[trigger] lookup(self.entries@, k) is Some
                        <==> (lookup(s, k) is Some || k == o.id@)) && (lookup(self.entries@, k) is Some
                        ==> lookup(self.entries@, k) == if k == o.id@ {
                        Some(o)
                    } else {
                        lookup(s, k)
                    }) by {
                        lemma_get_after_insert(s, o, k);
                        if !has_id(s, k) {
                            lemma_not_found(s, k);
                        }
                    }
                    assert(links_view(self.entries@) =~= links_view(s).insert(id@, t));
                }
            },
        }
    }

    fn drop_links(&mut self, id: &str)
        ensures
            final(self)@ == old(self)@.remove(id@),
    {
        let ghost s = self.entries@;
        self.entries.delete(id);
        proof {
            assert forall|k: Seq<char>| true implies #[trigger] lookup(self.entries@, k) == if k == id@ {
                None
            } else {
                lookup(s, k)
            } by {
                lemma_get_after_delete(s, id@, k);
            }
            assert(links_view(self.entries@) =~= links_view(s).remove(id@));
        }
    }

    /// The identifiers linked to object `id`, in the order they were
    /// linked: none where it has no links.
    pub fn get_linked_ids(&self, id: &str) -> (r: Vec<String>)
        ensures
            text_list(r@) == linked_before(self@, id@),
    {
        match self.entries.find(id) {
            Some(i) => match &self.entries.objects[i].data {
                Some(v) => clone_ids(v),
                None => {
                    let r: Vec<String> = Vec::new();
                    proof {
                        assert(text_list(r@) =~= Seq::<Seq<char>>::empty());
                    }
                    r
                },
            },
            None => {
                let r: Vec<String> = Vec::new();
                proof {
                    assert(text_list(r@) =~= Seq::<Seq<char>>::empty());
                }
                r
            },
        }
    }

    /// Adds `other_ids` after the identifiers already linked to object `id`
    /// of `resources`. Refused, with the table unchanged, where no list is
    /// given, or as [`link_refusal`] says.
    pub fn link<D>(
        &mut self,
        id: &str,
        other_ids: Option<Vec<String>>,
        resources: &MemStore<D>,
        resource: &str,
    ) -> (r: Result<(), StoreError>)
        ensures
            match r {
                Ok(()) => other_ids is Some && link_refusal(resources@, id@, resource@) is None
                    && final(self)@ == old(self)@.insert(
                    id@,
                    linked_before(old(self)@, id@) + text_list(other_ids->Some_0@),
                ),
                Err(e) => final(self)@ == old(self)@ && if other_ids is None {
                    e@ == StoreFailure::InvalidArgument("No other_id_list found in request."@)
                } else {
                    link_refusal(resources@, id@, resource@) == Some(e@)
                },
            },
    {
        let other_ids = match other_ids {
            Some(list) => list,
            None => {
                return Err(StoreError::InvalidArgument("No other_id_list found in request.".to_string()));
            },
        };
        refusal(id, resources, resource)?;
        let mut ids = self.get_linked_ids(id);
        let mut k: usize = 0;
        let ghost start = text_list(ids@);
        while k < other_ids.len()
            invariant
                k <= other_ids@.len(),
                text_list(ids@) == start + text_list(other_ids@.take(k as int)),
            decreases other_ids@.len() - k,
        {
            let ghost before = ids@;
            ids.push(other_ids[k].clone());
            proof {
                assert(other_ids@.take(k + 1) =~= other_ids@.take(k as int).push(other_ids@[k as int]));
                assert(text_list(ids@) =~= text_list(before).push(other_ids@[k as int]@));
                assert(text_list(other_ids@.take(k + 1)) =~= text_list(other_ids@.take(k as int)).push(
                    other_ids@[k as int]@,
                ));
            }
            k = k + 1;
        }
        proof {
            assert(other_ids@.take(k as int) =~= other_ids@);
        }
        self.put(id.to_string(), ids);
        Ok(())
    }

    /// Replaces the identifiers linked to object `id` of `resources` with
    /// `other_ids`. Refused, with the table unchanged, as [`MemLinks::link`]
    /// is.
    pub fn replace_linked<D>(
        &mut self,
        id: &str,
        other_ids: Option<Vec<String>>,
        resources: &MemStore<D>,
        resource: &str,
    ) -> (r: Result<(), StoreError>)
        ensures
            match r {
                Ok(()) => other_ids is Some && link_refusal(resources@, id@, resource@) is None
                    && final(self)@ == old(self)@.insert(id@, text_list(other_ids->Some_0@)),
                Err(e) => final(self)@ == old(self)@ && if other_ids is None {
                    e@ == StoreFailure::InvalidArgument("No other_id_list found in request."@)
                } else {
                    link_refusal(resources@, id@, resource@) == Some(e@)
                },
            },
    {
        let other_ids = match other_ids {
            Some(list) => list,
            None => {
                return Err(StoreError::InvalidArgument("No other_id_list found in request.".to_string()));
            },
        };
        refusal(id, resources, resource)?;
        self.drop_links(id);
        self.put(id.to_string(), other_ids);
        proof {
            assert(old(self)@.remove(id@).insert(id@, text_list(other_ids@)) =~= old(self)@.insert(
                id@,
                text_list(other_ids@),
            ));
        }
        Ok(())
    }

    /// Removes every link of object `id` of `resources`. Refused, with the
    /// table unchanged, as [`link_refusal`] says.
    pub fn unlink<D>(&mut self, id: &str, resources: &MemStore<D>, resource: &str) -> (r: Result<
        (),
        StoreError,
    >)
        ensures
            match r {
                Ok(()) => link_refusal(resources@, id@, resource@) is None && final(self)@ == old(
                    self,
                )@.remove(id@),
                Err(e) => final(self)@ == old(self)@ && link_refusal(resources@, id@, resource@)
                    == Some(e@),
            },
    {
        refusal(id, resources, resource)?;
        self.drop_links(id);
        Ok(())
    }

    /// The positions in `others` of the objects linked to object `id` of
    /// `resources`, as [`linked_result`] says.
    pub fn get_linked<D, O>(
        &self,
        id: &str,
        resources: &MemStore<D>,
        others: &MemStore<O>,
        resource: &str,
    ) -> (r: Result<Vec<usize>, StoreError>)
        ensures
            match r {
                Ok(ps) => linked_result(self@, resources@, others@, id@, resource@) == Ok::<
                    Seq<int>,
                    StoreFailure,
                >(ps@.map_values(|p: usize| p as int)),
                Err(e) => linked_result(self@, resources@, others@, id@, resource@) == Err::<
                    Seq<int>,
                    StoreFailure,
                >(e@),
            },
    {
        proof {
            reveal_strlit("No [");
            reveal_strlit("] found for specified uuid: ");
        }
        if resources.find(id).is_none() {
            let head = join_text("No [", resource);
            let mid = join_text(head.as_str(), "] found for specified uuid: ");
            return Err(StoreError::NotFound(join_text(mid.as_str(), id)));
        }
        if self.entries.find(id).is_none() {
            let r: Vec<usize> = Vec::new();
            proof {
                assert(r@.map_values(|p: usize| p as int) =~= Seq::<int>::empty());
            }
            return Ok(r);
        }
        let ids = self.get_linked_ids(id);
        let mut ps: Vec<usize> = Vec::new();
        let mut p: usize = 0;
        let objects = others.objects();
        proof {
            assert(others@.take(0) =~= Seq::<StoredObject<O>>::empty());
        }
        while p < objects.len()
            invariant
                p <= objects@.len(),
                objects@ == others@,
                ps@.map_values(|q: usize| q as int) == matching(others@.take(p as int), text_list(ids@)),
            decreases objects@.len() - p,
        {
            proof {
                assert(others@.take(p + 1).drop_last() =~= others@.take(p as int));
                assert(others@.take(p + 1).last() == others@[p as int]);
            }
            if listed(&ids, objects[p].id.as_str()) {
                let ghost before = ps@;
                ps.push(p);
                proof {
                    assert(ps@.map_values(|q: usize| q as int) =~= before.map_values(|q: usize| q as int).push(
                        p as int,
                    ));
                }
            }
            p = p + 1;
        }
        proof {
            assert(others@.take(p as int) =~= others@);
        }
        if ps.len() == 0 {
            let head = join_text("No [", resource);
            let mid = join_text(head.as_str(), "] found for specified uuid: ");
            return Err(StoreError::NotFound(join_text(mid.as_str(), id)));
        }
        Ok(ps)
    }
}

/// What reading the links gives back after each change: after a link, the
/// identifiers there were followed by the new ones; after a replace, just
/// the new ones; after an unlink, none; the links of every other object are
/// unchanged by all three.
pub proof fn lemma_links_after_changes(
    m: Map<Seq<char>, Seq<Seq<char>>>,
    id: Seq<char>,
    ids: Seq<Seq<char>>,
    x: Seq<char>,
)
    ensures
        linked_before(m.insert(id, linked_before(m, id) + ids), id) == linked_before(m, id) + ids,
        linked_before(m.insert(id, ids), id) == ids,
        linked_before(m.remove(id), id) == Seq::<Seq<char>>::empty(),
        x != id ==> linked_before(m.insert(id, linked_before(m, id) + ids), x) == linked_before(m, x),
        x != id ==> linked_before(m.insert(id, ids), x) == linked_before(m, x),
        x != id ==> linked_before(m.remove(id), x) == linked_before(m, x),
{
}

/// Linking nothing leaves the links as they are, but for an entry, empty,
/// that an object without links then has.
pub proof fn lemma_link_nothing(m: Map<Seq<char>, Seq<Seq<char>>>, id: Seq<char>, x: Seq<char>)
    ensures
        linked_before(m.insert(id, linked_before(m, id) + Seq::<Seq<char>>::empty()), x)
            == linked_before(m, x),
{
    assert(linked_before(m, id) + Seq::<Seq<char>>::empty() =~= linked_before(m, id));
}

/// A row of a link table that carries data of its own: the two linked
/// identifiers and the data.
#[derive(Debug)]
pub struct LinkedRow<D> {
    /// identifier of the object of the first resource
    pub resource_id: String,
    /// identifier of the object of the second resource
    pub other_resource_id: String,
    /// the row's own data
    pub data: D,
}

/// The value that a list of named identifiers gives the field `field`: that
/// of the last entry of that name, empty where there is none.
pub open spec fn last_value(ids: Seq<FieldValue>, field: Seq<char>) -> Seq<char>
    decreases ids.len(),
{
    if ids.len() == 0 {
        Seq::empty()
    } else if ids.last().field@ == field {
        ids.last().value@
    } else {
        last_value(ids.drop_last(), field)
    }
}

/// Reads the two identifiers of a row from a list of named identifiers, as
/// [`last_value`] says.
pub fn resolve_ids(ids: &Vec<FieldValue>, id_field: &str, other_id_field: &str) -> (r: (String, String))
    ensures
        r.0@ == last_value(ids@, id_field@),
        r.1@ == last_value(ids@, other_id_field@),
{
    let mut resource_id = String::new();
    let mut other_resource_id = String::new();
    let mut i: usize = 0;
    proof {
        assert(ids@.take(0) =~= Seq::<FieldValue>::empty());
    }
    while i < ids.len()
        invariant
            i <= ids@.len(),
            resource_id@ == last_value(ids@.take(i as int), id_field@),
            other_resource_id@ == last_value(ids@.take(i as int), other_id_field@),
        decreases ids@.len() - i,
    {
        proof {
            assert(ids@.take(i + 1).drop_last() =~= ids@.take(i as int));
            assert(ids@.take(i + 1).last() == ids@[i as int]);
        }
        if text_eq(ids[i].field.as_str(), id_field) {
            resource_id = ids[i].value.clone();
        }
        if text_eq(ids[i].field.as_str(), other_id_field) {
            other_resource_id = ids[i].value.clone();
        }
        i = i + 1;
    }
    proof {
        assert(ids@.take(i as int) =~= ids@);
    }
    (resource_id, other_resource_id)
}

/// The position of the first row linking `rid` to `oid`, if any.
pub open spec fn row_position<D>(s: Seq<LinkedRow<D>>, rid: Seq<char>, oid: Seq<char>) -> Option<int>
    decreases s.len(),
{
    if s.len() == 0 {
        None
    } else if s[0].resource_id@ == rid && s[0].other_resource_id@ == oid {
        Some(0)
    } else {
        match row_position(s.drop_first(), rid, oid) {
            Some(i) => Some(i + 1),
            None => None,
        }
    }
}

/// The rows that share neither identifier with the pair `rid`, `oid`, in
/// order.
pub open spec fn unrelated_rows<D>(s: Seq<LinkedRow<D>>, rid: Seq<char>, oid: Seq<char>) -> Seq<
    LinkedRow<D>,
>
    decreases s.len(),
{
    if s.len() == 0 {
        Seq::empty()
    } else if s.last().resource_id@ != rid && s.last().other_resource_id@ != oid {
        unrelated_rows(s.drop_last(), rid, oid).push(s.last())
    } else {
        unrelated_rows(s.drop_last(), rid, oid)
    }
}

proof fn lemma_row_position_step<D>(s: Seq<LinkedRow<D>>, rid: Seq<char>, oid: Seq<char>, i: int)
    requires
        0 <= i < s.len(),
        forall|j: int|
            0 <= j < i ==> !(s[j].resource_id@ == rid && s[j].other_resource_id@ == oid),
    ensures
        s[i].resource_id@ == rid && s[i].other_resource_id@ == oid ==> row_position(s, rid, oid)
            == Some(i),
    decreases i,
{
    if i > 0 {
        lemma_row_position_step(s.drop_first(), rid, oid, i - 1);
    }
}

proof fn lemma_row_absent<D>(s: Seq<LinkedRow<D>>, rid: Seq<char>, oid: Seq<char>)
    requires
        forall|j: int|
            0 <= j < s.len() ==> !(s[j].resource_id@ == rid && s[j].other_resource_id@ == oid),
    ensures
        row_position(s, rid, oid) is None,
    decreases s.len(),
{
    if s.len() > 0 {
        lemma_row_absent(s.drop_first(), rid, oid);
    }
}

/// The rows of a link table that carries data, in the order they were
/// inserted.
#[derive(Debug)]
pub struct LinkedStore<D> {
    rows: Vec<LinkedRow<D>>,
}

impl<D> View for LinkedStore<D> {
    type V = Seq<LinkedRow<D>>;

    closed spec fn view(&self) -> Seq<LinkedRow<D>> {
        self.rows@
    }
}

impl<D> LinkedStore<D> {
    /// An empty table.
    pub fn new() -> (r: Self)
        ensures
            r@ == Seq::<LinkedRow<D>>::empty(),
    {
        LinkedStore { rows: Vec::new() }
    }

    /// The rows, in order.
    pub fn rows(&self) -> (r: &Vec<LinkedRow<D>>)
        ensures
            r@ == self@,
    {
        &self.rows
    }

    /// Adds a row after the others. Adding always succeeds.
    pub fn insert(&mut self, row: LinkedRow<D>)
        ensures
            final(self)@ == old(self)@.push(row),
    {
        self.rows.push(row);
    }

    /// The position of the first row linking the identifiers that `ids`
    /// names for the two id fields (see [`resolve_ids`]), if any.
    pub fn find(&self, ids: &Vec<FieldValue>, id_field: &str, other_id_field: &str) -> (r: Option<
        usize,
    >)
        ensures
            match r {
                Some(i) => row_position(self@, last_value(ids@, id_field@), last_value(ids@, other_id_field@))
                    == Some(i as int) && i < self@.len(),
                None => row_position(self@, last_value(ids@, id_field@), last_value(ids@, other_id_field@)) is None,
            },
    {
        let (rid, oid) = resolve_ids(ids, id_field, other_id_field);
        let mut i: usize = 0;
        while i < self.rows.len()
            invariant
                i <= self@.len(),
                self@ == self.rows@,
                rid@ == last_value(ids@, id_field@),
                oid@ == last_value(ids@, other_id_field@),
                forall|j: int|
                    0 <= j < i ==> !(self@[j].resource_id@ == rid@ && self@[j].other_resource_id@
                        == oid@),
            decreases self@.len() - i,
        {
            let same_resource = text_eq(self.rows[i].resource_id.as_str(), rid.as_str());
            let same_other = text_eq(self.rows[i].other_resource_id.as_str(), oid.as_str());
            if same_resource && same_other {
                proof {
                    assert(self@[i as int].resource_id@ == rid@);
                    assert(self@[i as int].other_resource_id@ == oid@);
                    lemma_row_position_step(self@, rid@, oid@, i as int);
                }
                return Some(i);
            }
            i = i + 1;
        }
        proof {
            lemma_row_absent(self@, rid@, oid@);
        }
        None
    }

    /// The first row linking the identifiers that `ids` names, if any.
    pub fn get_by_id(&self, ids: &Vec<FieldValue>, id_field: &str, other_id_field: &str) -> (r:
        Option<&LinkedRow<D>>)
        ensures
            match row_position(self@, last_value(ids@, id_field@), last_value(ids@, other_id_field@)) {
                Some(i) => r == Some(&self@[i]),
                None => r is None,
            },
    {
        match self.find(ids, id_field, other_id_field) {
            Some(i) => Some(&self.rows[i]),
            None => None,
        }
    }

    /// Replaces the data of the first row linking the identifiers that `ids`
    /// names and returns its position; where there is none, the table is
    /// unchanged and the error is `Not found`.
    pub fn update(&mut self, ids: &Vec<FieldValue>, id_field: &str, other_id_field: &str, data: D) -> (r:
        Result<usize, StoreError>)
        ensures
            match row_position(
                old(self)@,
                last_value(ids@, id_field@),
                last_value(ids@, other_id_field@),
            ) {
                Some(i) => r == Ok::<usize, StoreError>(i as usize) && 0 <= i < old(self)@.len()
                    && final(self)@ == old(self)@.update(
                    i,
                    LinkedRow {
                        resource_id: old(self)@[i].resource_id,
                        other_resource_id: old(self)@[i].other_resource_id,
                        data,
                    },
                ),
                None => r is Err && r->Err_0@ == StoreFailure::NotFound("Not found"@) && final(self)@
                    == old(self)@,
            },
    {
        match self.find(ids, id_field, other_id_field) {
            Some(i) => {
                let resource_id = self.rows[i].resource_id.clone();
                let other_resource_id = self.rows[i].other_resource_id.clone();
                self.rows.set(i, LinkedRow { resource_id, other_resource_id, data });
                Ok(i)
            },
            None => Err(StoreError::NotFound("Not found".to_string())),
        }
    }

    /// Removes every row that shares an identifier with the pair that `ids`
    /// names: a row stays only where both its identifiers differ from the
    /// pair's. Removing always succeeds.
    pub fn delete(&mut self, ids: &Vec<FieldValue>, id_field: &str, other_id_field: &str)
        ensures
            final(self)@ == unrelated_rows(
                old(self)@,
                last_value(ids@, id_field@),
                last_value(ids@, other_id_field@),
            ),
    {
        let (rid, oid) = resolve_ids(ids, id_field, other_id_field);
        let ghost start = self.rows@;
        let count = self.rows.len();
        assert(start.len() == count);
        let mut i: usize = 0;
        let mut j: usize = 0;
        proof {
            assert(start.take(0) =~= Seq::<LinkedRow<D>>::empty());
            assert(start.skip(0) =~= start);
        }
        while i < self.rows.len()
            invariant
                j <= start.len(),
                start.len() <= usize::MAX,
                self.rows@ == unrelated_rows(start.take(j as int), rid@, oid@) + start.skip(j as int),
                i == unrelated_rows(start.take(j as int), rid@, oid@).len(),
                start == old(self)@,
            decreases self.rows@.len() - i,
        {
            let ghost kept = unrelated_rows(start.take(j as int), rid@, oid@);
            proof {
                assert(j < start.len()) by {
                    if j == start.len() {
                        assert(start.skip(j as int).len() == 0);
                    }
                }
                assert(start.take(j + 1).drop_last() =~= start.take(j as int));
                assert(start.take(j + 1).last() == start[j as int]);
                assert(self.rows@[i as int] == start[j as int]);
            }
            if !text_eq(self.rows[i].resource_id.as_str(), rid.as_str()) && !text_eq(
                self.rows[i].other_resource_id.as_str(),
                oid.as_str(),
            ) {
                proof {
                    assert(self.rows@ =~= kept.push(start[j as int]) + start.skip(j + 1));
                }
                i = i + 1;
            } else {
                self.rows.remove(i);
                proof {
                    assert(self.rows@ =~= kept + start.skip(j + 1));
                }
            }
            j = j + 1;
        }
        proof {
            assert(j == start.len()) by {
                if j < start.len() {
                    assert(self.rows@.len() > i);
                }
            }
            assert(start.take(j as int) =~= start);
            assert(start.skip(j as int) =~= Seq::<LinkedRow<D>>::empty());
            assert(self.rows@ =~= unrelated_rows(start, rid@, oid@));
        }
    }
}

/// What a read gives back after a row is added: the first row for a pair
/// stays the first; a pair that had no row finds the added row if it is the
/// added row's pair.
pub proof fn lemma_linked_get_after_insert<D>(
    s: Seq<LinkedRow<D>>,
    row: LinkedRow<D>,
    rid: Seq<char>,
    oid: Seq<char>,
)
    ensures
        row_position(s.push(row), rid, oid) == match row_position(s, rid, oid) {
            Some(i) => Some(i),
            None => if row.resource_id@ == rid && row.other_resource_id@ == oid {
                Some(s.len() as int)
            } else {
                None
            },
        },
    decreases s.len(),
{
    let t = s.push(row);
    if s.len() == 0 {
        assert(t.drop_first() =~= Seq::<LinkedRow<D>>::empty());
        assert(row_position(t.drop_first(), rid, oid) is None);
        assert(t[0] == row);
    } else {
        assert(t.drop_first() =~= s.drop_first().push(row));
        assert(t[0] == s[0]);
        lemma_linked_get_after_insert(s.drop_first(), row, rid, oid);
    }
}

/// After a delete no row shares an identifier with the deleted pair, so
/// the pair is found no more; every row that shares neither stays, in
/// order.
pub proof fn lemma_linked_delete_removes_related<D>(
    s: Seq<LinkedRow<D>>,
    rid: Seq<char>,
    oid: Seq<char>,
)
    ensures
        forall|k: int|
            0 <= k < unrelated_rows(s, rid, oid).len() ==> (#[trigger] unrelated_rows(
                s,
                rid,
                oid,
            )[k]).resource_id@ != rid && unrelated_rows(s, rid, oid)[k].other_resource_id@ != oid,
        row_position(unrelated_rows(s, rid, oid), rid, oid) is None,
        unrelated_rows(s, rid, oid) == s.filter(
            |r: LinkedRow<D>| r.resource_id@ != rid && r.other_resource_id@ != oid,
        ),
    decreases s.len(),
{
    let u = unrelated_rows(s, rid, oid);
    if s.len() > 0 {
        lemma_linked_delete_removes_related(s.drop_last(), rid, oid);
        let p = unrelated_rows(s.drop_last(), rid, oid);
        assert forall|k: int| 0 <= k < u.len() implies (#[trigger] u[k]).resource_id@ != rid
            && u[k].other_resource_id@ != oid by {
            if k < p.len() {
                assert(u[k] == p[k]);
            }
        }
        reveal(Seq::filter);
    } else {
        reveal(Seq::filter);
    }
    lemma_row_absent(u, rid, oid);
}

/// What a read gives back after an update: the same row position, now with
/// the new data and the same identifiers.
pub proof fn lemma_linked_update_then_get<D>(
    s: Seq<LinkedRow<D>>,
    rid: Seq<char>,
    oid: Seq<char>,
    i: int,
    data: D,
)
    requires
        row_position(s, rid, oid) == Some(i),
    ensures
        0 <= i < s.len(),
        row_position(
            s.update(
                i,
                LinkedRow {
                    resource_id: s[i].resource_id,
                    other_resource_id: s[i].other_resource_id,
                    data,
                },
            ),
            rid,
            oid,
        ) == Some(i),
    decreases s.len(),
{
    let t = s.update(
        i,
        LinkedRow { resource_id: s[i].resource_id, other_resource_id: s[i].other_resource_id, data },
    );
    if s[0].resource_id@ == rid && s[0].other_resource_id@ == oid {
        assert(i == 0);
    } else {
        let j = row_position(s.drop_first(), rid, oid)->Some_0;
        lemma_linked_update_then_get(s.drop_first(), rid, oid, j, data);
        assert(t.drop_first() =~= s.drop_first().update(
            j,
            LinkedRow {
                resource_id: s.drop_first()[j].resource_id,
                other_resource_id: s.drop_first()[j].other_resource_id,
                data,
            },
        ));
    }
}

} // verus!
