//! The search that the in-memory backends run in place of the database: each
//! stored object is read as the JSON value it serializes to, and the
//! conditions of an advanced search keep or drop it.
//!
//! A stored object is held as a [`SearchRecord`]: the value under its `id`
//! key, the fields under its `data` key, and the identifiers listed under its
//! `ids` key. A number is held as its JSON text together with its place in
//! the order of 64-bit floating-point values (see [`JsonValue::Number`]), so
//! that comparisons follow that order without the search holding a float.

use vstd::prelude::*;
use crate::platform::{lowercase, parse_rfc3339, rfc3339_parse, to_lowercase};
use crate::search::{
    get_single_search_value, lemma_comparison_operator_names_and_values,
    lemma_predicate_operator_names_and_values, single_value_error, ComparisonOperator,
    PredicateOperator,
};
use crate::text::{join_text, contains_seq, occurs_at, text_contains, text_eq};

verus! {

/// What the search reads of a JSON value.
#[derive(Debug)]
pub enum JsonValue {
    /// `null`, or a key that is absent
    Null,
    /// a string, without its quotes
    Text(String),
    /// a number: its JSON text, and its place in the order of `f64` values
    /// (numbers with equal keys compare equal, a smaller key is a smaller
    /// number)
    Number { text: String, key: i64 },
    /// a boolean, an array or an object: its JSON text
    Other(String),
}

impl Clone for JsonValue {
    fn clone(&self) -> (r: Self)
        ensures
            r == *self,
    {
        match self {
            JsonValue::Null => JsonValue::Null,
            JsonValue::Text(s) => JsonValue::Text(s.clone()),
            JsonValue::Number { text, key } => JsonValue::Number { text: text.clone(), key: *key },
            JsonValue::Other(s) => JsonValue::Other(s.clone()),
        }
    }
}

/// One key of an object's `data` and the value under it.
#[derive(Debug)]
pub struct DataField {
    /// the key
    pub name: String,
    /// the value under it
    pub value: JsonValue,
}

impl Clone for DataField {
    fn clone(&self) -> (r: Self)
        ensures
            r == *self,
    {
        DataField { name: self.name.clone(), value: self.value.clone() }
    }
}

/// A named identifier of a linked object.
#[derive(Debug)]
pub struct FieldValue {
    /// the name of the identifier's field
    pub field: String,
    /// the identifier
    pub value: String,
}

impl Clone for FieldValue {
    fn clone(&self) -> (r: Self)
        ensures
            r == *self,
    {
        FieldValue { field: self.field.clone(), value: self.value.clone() }
    }
}

/// What an object holds under its `ids` key.
#[derive(Debug)]
pub enum IdsState {
    /// nothing: the key is absent or `null`
    Absent,
    /// a list of named identifiers, held in [`SearchRecord::ids`]
    Listed,
    /// a value that is no list of named identifiers: its debug rendering and
    /// the reason it could not be read
    Malformed { debug: String, error: String },
}

impl Clone for IdsState {
    fn clone(&self) -> (r: Self)
        ensures
            r == *self,
    {
        match self {
            IdsState::Absent => IdsState::Absent,
            IdsState::Listed => IdsState::Listed,
            IdsState::Malformed { debug, error } => IdsState::Malformed {
                debug: debug.clone(),
                error: error.clone(),
            },
        }
    }
}

/// A stored object as the search reads it.
#[derive(Debug)]
pub struct SearchRecord {
    /// where the object stands in the list it was read from
    pub position: usize,
    /// the value under the object's `id` key
    pub id: JsonValue,
    /// the keys and values of the object under its `data` key (none when
    /// that is no object)
    pub data: Vec<DataField>,
    /// the identifiers under the object's `ids` key, when
    /// [`SearchRecord::ids_state`] is [`IdsState::Listed`]
    pub ids: Vec<FieldValue>,
    /// what the object holds under its `ids` key
    pub ids_state: IdsState,
}

/// The mathematical form of a [`SearchRecord`].
pub struct SearchRecordView {
    pub position: usize,
    pub id: JsonValue,
    pub data: Seq<DataField>,
    pub ids: Seq<FieldValue>,
    pub ids_state: IdsState,
}

impl View for SearchRecord {
    type V = SearchRecordView;

    open spec fn view(&self) -> SearchRecordView {
        SearchRecordView {
            position: self.position,
            id: self.id,
            data: self.data@,
            ids: self.ids@,
            ids_state: self.ids_state,
        }
    }
}

impl Clone for SearchRecord {
    fn clone(&self) -> (r: Self)
        ensures
            r@ == self@,
    {
        let data = self.data.clone();
        let ids = self.ids.clone();
        assert(data@ =~= self.data@);
        assert(ids@ =~= self.ids@);
        SearchRecord {
            position: self.position,
            id: self.id.clone(),
            data,
            ids,
            ids_state: self.ids_state.clone(),
        }
    }
}

/// The views of a sequence of records.
pub open spec fn views(s: Seq<SearchRecord>) -> Seq<SearchRecordView> {
    s.map_values(|r: SearchRecord| r@)
}

/// The value under key `name` in the fields of an object: that of the first
/// field with that key, `null` when there is none.
pub open spec fn data_lookup(fields: Seq<DataField>, name: Seq<char>) -> JsonValue
    decreases fields.len(),
{
    if fields.len() == 0 {
        JsonValue::Null
    } else if fields[0].name@ == name {
        fields[0].value
    } else {
        data_lookup(fields.drop_first(), name)
    }
}

/// The identifier of the first entry of `ids` named `name`, if any.
pub open spec fn ids_lookup(ids: Seq<FieldValue>, name: Seq<char>) -> Option<String>
    decreases ids.len(),
{
    if ids.len() == 0 {
        None
    } else if ids[0].field@ == name {
        Some(ids[0].value)
    } else {
        ids_lookup(ids.drop_first(), name)
    }
}

/// The error for an `ids` value that is no list of named identifiers.
pub open spec fn ids_error(debug: Seq<char>, error: Seq<char>) -> Seq<char> {
    "Could not convert ["@ + debug + "] to Ids from json value: "@ + error
}

/// The value that a search on `field` reads from a record: the value under
/// `id` for the field `id`, else the value under that key of `data`; where
/// that is `null` and the record lists identifiers, the first identifier of
/// that name, as a string. A malformed `ids` value is an error there.
pub open spec fn field_value(r: SearchRecordView, field: Seq<char>) -> Result<JsonValue, Seq<char>> {
    let direct = if field == "id"@ {
        r.id
    } else {
        data_lookup(r.data, field)
    };
    if direct is Null {
        match r.ids_state {
            IdsState::Absent => Ok(direct),
            IdsState::Malformed { debug, error } => Err(ids_error(debug@, error@)),
            IdsState::Listed => match ids_lookup(r.ids, field) {
                Some(v) => Ok(JsonValue::Text(v)),
                None => Ok(direct),
            },
        }
    } else {
        Ok(direct)
    }
}

proof fn lemma_data_lookup_step(fields: Seq<DataField>, name: Seq<char>, i: int)
    requires
        0 <= i < fields.len(),
    ensures
        data_lookup(fields.skip(i), name) == if fields[i].name@ == name {
            fields[i].value
        } else {
            data_lookup(fields.skip(i + 1), name)
        },
{
    assert(fields.skip(i).drop_first() =~= fields.skip(i + 1));
}

proof fn lemma_ids_lookup_step(ids: Seq<FieldValue>, name: Seq<char>, i: int)
    requires
        0 <= i < ids.len(),
    ensures
        ids_lookup(ids.skip(i), name) == if ids[i].field@ == name {
            Some(ids[i].value)
        } else {
            ids_lookup(ids.skip(i + 1), name)
        },
{
    assert(ids.skip(i).drop_first() =~= ids.skip(i + 1));
}

fn find_data(fields: &Vec<DataField>, name: &str) -> (r: JsonValue)
    ensures
        r == data_lookup(fields@, name@),
{
    let mut i: usize = 0;
    proof {
        assert(fields@.skip(0) =~= fields@);
    }
    while i < fields.len()
        invariant
            i <= fields@.len(),
            data_lookup(fields@.skip(i as int), name@) == data_lookup(fields@, name@),
        decreases fields@.len() - i,
    {
        proof {
            lemma_data_lookup_step(fields@, name@, i as int);
        }
        if text_eq(fields[i].name.as_str(), name) {
            return fields[i].value.clone();
        }
        i = i + 1;
    }
    proof {
        assert(fields@.skip(i as int).len() == 0);
    }
    JsonValue::Null
}

fn find_id(ids: &Vec<FieldValue>, name: &str) -> (r: Option<String>)
    ensures
        r == ids_lookup(ids@, name@),
{
    let mut i: usize = 0;
    proof {
        assert(ids@.skip(0) =~= ids@);
    }
    while i < ids.len()
        invariant
            i <= ids@.len(),
            ids_lookup(ids@.skip(i as int), name@) == ids_lookup(ids@, name@),
        decreases ids@.len() - i,
    {
        proof {
            lemma_ids_lookup_step(ids@, name@, i as int);
        }
        if text_eq(ids[i].field.as_str(), name) {
            return Some(ids[i].value.clone());
        }
        i = i + 1;
    }
    proof {
        assert(ids@.skip(i as int).len() == 0);
    }
    None
}

/// Reads the value that a search on `search_field` compares, as
/// [`field_value`] says.
pub fn read_field(record: &SearchRecord, search_field: &str) -> (r: Result<JsonValue, String>)
    ensures
        match r {
            Ok(v) => field_value(record@, search_field@) == Ok::<JsonValue, Seq<char>>(v),
            Err(e) => field_value(record@, search_field@) == Err::<JsonValue, Seq<char>>(e@),
        },
{
    let direct = if text_eq(search_field, "id") {
        record.id.clone()
    } else {
        find_data(&record.data, search_field)
    };
    proof {
        reveal_strlit("id");
    }
    match direct {
        JsonValue::Null => match &record.ids_state {
            IdsState::Absent => Ok(direct),
            IdsState::Malformed { debug, error } => {
                let head = join_text("Could not convert [", debug.as_str());
                let mid = join_text(head.as_str(), "] to Ids from json value: ");
                proof {
                    reveal_strlit("Could not convert [");
                    reveal_strlit("] to Ids from json value: ");
                }
                Err(join_text(mid.as_str(), error.as_str()))
            },
            IdsState::Listed => match find_id(&record.ids, search_field) {
                Some(v) => Ok(JsonValue::Text(v)),
                None => Ok(direct),
            },
        },
        _ => Ok(direct),
    }
}

/// What a search value reads as when taken for a floating-point number.
#[derive(Debug)]
pub enum NumberParse {
    /// a number other than NaN, by its place in the order of `f64` values
    /// (the same order as [`JsonValue::Number`] keys)
    Ordered(i64),
    /// NaN, which no comparison holds for
    Unordered,
    /// no number: the text of the parse error
    Invalid(String),
}

impl Clone for NumberParse {
    fn clone(&self) -> (r: Self)
        ensures
            r == *self,
    {
        match self {
            NumberParse::Ordered(k) => NumberParse::Ordered(*k),
            NumberParse::Unordered => NumberParse::Unordered,
            NumberParse::Invalid(e) => NumberParse::Invalid(e.clone()),
        }
    }
}

/// One value of a search condition: its text, and what it reads as when
/// taken for a number.
#[derive(Debug)]
pub struct SearchValue {
    /// the value as given
    pub text: String,
    /// the value read as a floating-point number
    pub number: NumberParse,
}

impl Clone for SearchValue {
    fn clone(&self) -> (r: Self)
        ensures
            r == *self,
    {
        SearchValue { text: self.text.clone(), number: self.number.clone() }
    }
}

/// The text that equality, membership and pattern conditions compare: a
/// string without its quotes, any other value as its JSON text.
pub open spec fn text_of(v: JsonValue) -> Seq<char> {
    match v {
        JsonValue::Null => "null"@,
        JsonValue::Text(s) => s@,
        JsonValue::Number { text, .. } => text@,
        JsonValue::Other(t) => t@,
    }
}

/// The texts of search values.
pub open spec fn texts(values: Seq<SearchValue>) -> Seq<Seq<char>> {
    values.map_values(|v: SearchValue| v.text@)
}

/// The error for a search value that is no number or no date.
pub open spec fn conversion_error(
    label: Seq<char>,
    text: Seq<char>,
    target: Seq<char>,
    error: Seq<char>,
) -> Seq<char> {
    "Could not convert search_value "@ + label + "["@ + text + "] to "@ + target + ": "@ + error
}

/// The error for an ordering condition on a value that is neither a number
/// nor a string.
pub open spec fn not_a_string() -> Seq<char> {
    "Could not convert provided value to string."@
}

/// The error for a range condition without values.
pub open spec fn between_without_values() -> Seq<char> {
    "Error in advanced search parameters. Between operator is expecting 2 values but got zero."@
}

/// The error for a range condition with a single value.
pub open spec fn between_with_one_value() -> Seq<char> {
    "Error in advanced search parameters. Between operator is expecting 2 values but got only one."@
}

/// `a` holds `op` to `b`, for the four ordering operators.
pub open spec fn holds(a: int, b: int, op: PredicateOperator) -> bool {
    match op {
        PredicateOperator::Greater => a > b,
        PredicateOperator::GreaterOrEqual => a >= b,
        PredicateOperator::Less => a < b,
        PredicateOperator::LessOrEqual => a <= b,
        _ => false,
    }
}

/// Instant `a` (seconds, nanoseconds) is earlier than instant `b`.
pub open spec fn earlier(a: (i64, u32), b: (i64, u32)) -> bool {
    a.0 < b.0 || (a.0 == b.0 && a.1 < b.1)
}

/// Instant `a` holds `op` to instant `b`, for the four ordering operators.
pub open spec fn instant_holds(a: (i64, u32), b: (i64, u32), op: PredicateOperator) -> bool {
    match op {
        PredicateOperator::Greater => earlier(b, a),
        PredicateOperator::GreaterOrEqual => !earlier(a, b),
        PredicateOperator::Less => earlier(a, b),
        PredicateOperator::LessOrEqual => !earlier(b, a),
        _ => false,
    }
}

/// Whether an ordering condition keeps a value: numbers compare as numbers
/// (never with NaN), strings that are RFC 3339 dates compare as instants,
/// other strings are never kept; anything else is an error.
pub open spec fn ordered_keep(val: JsonValue, sv: SearchValue, op: PredicateOperator) -> Result<bool, Seq<char>> {
    match val {
        JsonValue::Number { key, .. } => match sv.number {
            NumberParse::Invalid(e) => Err(conversion_error(""@, sv.text@, "f64"@, e@)),
            NumberParse::Unordered => Ok(false),
            NumberParse::Ordered(k) => Ok(holds(key as int, k as int, op)),
        },
        JsonValue::Text(s) => match rfc3339_parse(s@) {
            Err(_) => Ok(false),
            Ok(t) => match rfc3339_parse(sv.text@) {
                Err(e) => Err(conversion_error(""@, sv.text@, "date"@, e)),
                Ok(u) => Ok(instant_holds(t, u, op)),
            },
        },
        _ => Err(not_a_string()),
    }
}

/// A number key lies at or above a bound (never for NaN).
pub open spec fn at_least(key: i64, bound: NumberParse) -> bool {
    match bound {
        NumberParse::Ordered(k) => key >= k,
        _ => false,
    }
}

/// A number key lies at or below a bound (never for NaN).
pub open spec fn at_most(key: i64, bound: NumberParse) -> bool {
    match bound {
        NumberParse::Ordered(k) => key <= k,
        _ => false,
    }
}

/// Whether a range condition with bounds `min` and `max` keeps a value, as
/// [`ordered_keep`] reads values; a bound that does not read as the value's
/// kind is an error (the error for an unreadable upper date names the lower
/// bound's text).
pub open spec fn between_keep(val: JsonValue, min: SearchValue, max: SearchValue) -> Result<bool, Seq<char>> {
    match val {
        JsonValue::Number { key, .. } => match min.number {
            NumberParse::Invalid(e) => Err(conversion_error("min "@, min.text@, "f64"@, e@)),
            _ => match max.number {
                NumberParse::Invalid(e) => Err(conversion_error("max "@, max.text@, "f64"@, e@)),
                _ => Ok(at_least(key, min.number) && at_most(key, max.number)),
            },
        },
        JsonValue::Text(s) => match rfc3339_parse(s@) {
            Err(_) => Ok(false),
            Ok(t) => match rfc3339_parse(min.text@) {
                Err(e) => Err(conversion_error("min "@, min.text@, "date"@, e)),
                Ok(lo) => match rfc3339_parse(max.text@) {
                    Err(e) => Err(conversion_error("max "@, min.text@, "date"@, e)),
                    Ok(hi) => Ok(!earlier(t, lo) && !earlier(hi, t)),
                },
            },
        },
        _ => Err(not_a_string()),
    }
}

/// Whether the condition `op` with the given values keeps a value, or the
/// error it raises. Conditions that take one value raise an error unless
/// given exactly one; a range needs two (further values are ignored); the
/// geometric conditions keep nothing.
pub open spec fn keep(val: JsonValue, values: Seq<SearchValue>, op: PredicateOperator) -> Result<bool, Seq<char>> {
    let single = if values.len() == 1 {
        Ok(values[0])
    } else {
        Err(single_value_error(values.len()))
    };
    match op {
        PredicateOperator::Equals => match single {
            Ok(sv) => Ok(text_of(val) == sv.text@),
            Err(e) => Err(e),
        },
        PredicateOperator::NotEquals => match single {
            Ok(sv) => Ok(text_of(val) != sv.text@),
            Err(e) => Err(e),
        },
        PredicateOperator::In => Ok(texts(values).contains(text_of(val))),
        PredicateOperator::NotIn => Ok(!texts(values).contains(text_of(val))),
        PredicateOperator::Between => if values.len() == 0 {
            Err(between_without_values())
        } else if values.len() == 1 {
            Err(between_with_one_value())
        } else {
            between_keep(val, values[0], values[1])
        },
        PredicateOperator::IsNull => Ok(val is Null),
        PredicateOperator::IsNotNull => Ok(!(val is Null)),
        PredicateOperator::Ilike => match single {
            Ok(sv) => Ok(contains_seq(lowercase(text_of(val)), lowercase(sv.text@))),
            Err(e) => Err(e),
        },
        PredicateOperator::Like => match single {
            Ok(sv) => Ok(contains_seq(text_of(val), sv.text@)),
            Err(e) => Err(e),
        },
        PredicateOperator::Greater | PredicateOperator::GreaterOrEqual
        | PredicateOperator::Less | PredicateOperator::LessOrEqual => match single {
            Ok(sv) => ordered_keep(val, sv, op),
            Err(e) => Err(e),
        },
        PredicateOperator::GeoIntersect | PredicateOperator::GeoWithin
        | PredicateOperator::GeoDisjoint => Ok(false),
    }
}

/// Whether a search on `field` with condition `op` keeps a record, or the
/// error it raises on it.
pub open spec fn outcome(
    r: SearchRecordView,
    field: Seq<char>,
    values: Seq<SearchValue>,
    op: PredicateOperator,
) -> Result<bool, Seq<char>> {
    match field_value(r, field) {
        Ok(v) => keep(v, values, op),
        Err(e) => Err(e),
    }
}

/// An outcome computed in code agrees with one stated over sequences.
pub open spec fn agrees<T>(r: Result<T, String>, s: Result<T, Seq<char>>) -> bool {
    match r {
        Ok(b) => s == Ok::<T, Seq<char>>(b),
        Err(e) => s == Err::<T, Seq<char>>(e@),
    }
}

/// The contents of a list of strings.
pub open spec fn text_list(s: Seq<String>) -> Seq<Seq<char>> {
    s.map_values(|t: String| t@)
}

fn conversion_message(label: &str, text: &str, target: &str, error: &str) -> (r: String)
    ensures
        r@ == conversion_error(label@, text@, target@, error@),
{
    let a = join_text("Could not convert search_value ", label);
    let b = join_text(a.as_str(), "[");
    let c = join_text(b.as_str(), text);
    let d = join_text(c.as_str(), "] to ");
    let e = join_text(d.as_str(), target);
    let f = join_text(e.as_str(), ": ");
    proof {
        reveal_strlit("Could not convert search_value ");
        reveal_strlit("[");
        reveal_strlit("] to ");
        reveal_strlit(": ");
    }
    join_text(f.as_str(), error)
}

fn rendered(val: &JsonValue) -> (r: String)
    ensures
        r@ == text_of(*val),
{
    match val {
        JsonValue::Null => "null".to_string(),
        JsonValue::Text(s) => s.clone(),
        JsonValue::Number { text, .. } => text.clone(),
        JsonValue::Other(t) => t.clone(),
    }
}

fn is_earlier(a: (i64, u32), b: (i64, u32)) -> (r: bool)
    ensures
        r == earlier(a, b),
{
    a.0 < b.0 || (a.0 == b.0 && a.1 < b.1)
}

fn key_holds(a: i64, b: i64, op: PredicateOperator) -> (r: bool)
    ensures
        r == holds(a as int, b as int, op),
{
    match op {
        PredicateOperator::Greater => a > b,
        PredicateOperator::GreaterOrEqual => a >= b,
        PredicateOperator::Less => a < b,
        PredicateOperator::LessOrEqual => a <= b,
        _ => false,
    }
}

fn instant_holds_at(a: (i64, u32), b: (i64, u32), op: PredicateOperator) -> (r: bool)
    ensures
        r == instant_holds(a, b, op),
{
    match op {
        PredicateOperator::Greater => is_earlier(b, a),
        PredicateOperator::GreaterOrEqual => !is_earlier(a, b),
        PredicateOperator::Less => is_earlier(a, b),
        PredicateOperator::LessOrEqual => !is_earlier(b, a),
        _ => false,
    }
}

fn keep_ordered(val: &JsonValue, sv: &SearchValue, op: PredicateOperator) -> (r: Result<bool, String>)
    ensures
        agrees(r, ordered_keep(*val, *sv, op)),
{
    proof {
        reveal_strlit("Could not convert provided value to string.");
    }
    match val {
        JsonValue::Number { key, .. } => match &sv.number {
            NumberParse::Invalid(e) => Err(conversion_message("", sv.text.as_str(), "f64", e.as_str())),
            NumberParse::Unordered => Ok(false),
            NumberParse::Ordered(k) => Ok(key_holds(*key, *k, op)),
        },
        JsonValue::Text(s) => match parse_rfc3339(s.as_str()) {
            Err(_) => Ok(false),
            Ok(t) => match parse_rfc3339(sv.text.as_str()) {
                Err(e) => Err(conversion_message("", sv.text.as_str(), "date", e.as_str())),
                Ok(u) => Ok(instant_holds_at(t, u, op)),
            },
        },
        _ => Err("Could not convert provided value to string.".to_string()),
    }
}

fn bound_below(key: i64, bound: &NumberParse) -> (r: bool)
    ensures
        r == at_least(key, *bound),
{
    match bound {
        NumberParse::Ordered(k) => key >= *k,
        _ => false,
    }
}

fn bound_above(key: i64, bound: &NumberParse) -> (r: bool)
    ensures
        r == at_most(key, *bound),
{
    match bound {
        NumberParse::Ordered(k) => key <= *k,
        _ => false,
    }
}

fn keep_between(val: &JsonValue, min: &SearchValue, max: &SearchValue) -> (r: Result<bool, String>)
    ensures
        agrees(r, between_keep(*val, *min, *max)),
{
    proof {
        reveal_strlit("Could not convert provided value to string.");
    }
    match val {
        JsonValue::Number { key, .. } => match &min.number {
            NumberParse::Invalid(e) => Err(conversion_message("min ", min.text.as_str(), "f64", e.as_str())),
            _ => match &max.number {
                NumberParse::Invalid(e) => Err(conversion_message("max ", max.text.as_str(), "f64", e.as_str())),
                _ => Ok(bound_below(*key, &min.number) && bound_above(*key, &max.number)),
            },
        },
        JsonValue::Text(s) => match parse_rfc3339(s.as_str()) {
            Err(_) => Ok(false),
            Ok(t) => match parse_rfc3339(min.text.as_str()) {
                Err(e) => Err(conversion_message("min ", min.text.as_str(), "date", e.as_str())),
                Ok(lo) => match parse_rfc3339(max.text.as_str()) {
                    Err(e) => Err(conversion_message("max ", min.text.as_str(), "date", e.as_str())),
                    Ok(hi) => Ok(!is_earlier(t, lo) && !is_earlier(hi, t)),
                },
            },
        },
        _ => Err("Could not convert provided value to string.".to_string()),
    }
}

pub(crate) fn listed(list: &Vec<String>, t: &str) -> (r: bool)
    ensures
        r == text_list(list@).contains(t@),
{
    let mut i: usize = 0;
    while i < list.len()
        invariant
            i <= list@.len(),
            forall|j: int| 0 <= j < i ==> list@[j]@ != t@,
        decreases list@.len() - i,
    {
        if text_eq(list[i].as_str(), t) {
            assert(text_list(list@)[i as int] == t@);
            return true;
        }
        i = i + 1;
    }
    proof {
        if text_list(list@).contains(t@) {
            let k = choose|k: int| 0 <= k < text_list(list@).len() && text_list(list@)[k] == t@;
            assert(list@[k]@ == t@);
        }
    }
    false
}

fn keep_value(
    val: &JsonValue,
    values: &Vec<SearchValue>,
    value_texts: &Vec<String>,
    op: PredicateOperator,
) -> (r: Result<bool, String>)
    requires
        text_list(value_texts@) == texts(values@),
    ensures
        agrees(r, keep(*val, values@, op)),
{
    proof {
        assert(value_texts@.len() == text_list(value_texts@).len());
        assert(values@.len() == texts(values@).len());
        if values@.len() == 1 {
            assert(text_list(value_texts@)[0] == texts(values@)[0]);
        }
        reveal_strlit(
            "Error in advanced search parameters. Between operator is expecting 2 values but got zero.",
        );
        reveal_strlit(
            "Error in advanced search parameters. Between operator is expecting 2 values but got only one.",
        );
    }
    match op {
        PredicateOperator::Equals => {
            let sv = get_single_search_value(value_texts)?;
            let cmp = rendered(val);
            Ok(text_eq(cmp.as_str(), sv.as_str()))
        },
        PredicateOperator::NotEquals => {
            let sv = get_single_search_value(value_texts)?;
            let cmp = rendered(val);
            Ok(!text_eq(cmp.as_str(), sv.as_str()))
        },
        PredicateOperator::In => {
            let cmp = rendered(val);
            Ok(listed(value_texts, cmp.as_str()))
        },
        PredicateOperator::NotIn => {
            let cmp = rendered(val);
            Ok(!listed(value_texts, cmp.as_str()))
        },
        PredicateOperator::Between => {
            if values.len() == 0 {
                Err(
                    "Error in advanced search parameters. Between operator is expecting 2 values but got zero.".to_string(),
                )
            } else if values.len() == 1 {
                Err(
                    "Error in advanced search parameters. Between operator is expecting 2 values but got only one.".to_string(),
                )
            } else {
                keep_between(val, &values[0], &values[1])
            }
        },
        PredicateOperator::IsNull => Ok(matches!(val, JsonValue::Null)),
        PredicateOperator::IsNotNull => Ok(!matches!(val, JsonValue::Null)),
        PredicateOperator::Ilike => {
            let sv = get_single_search_value(value_texts)?;
            let cmp = rendered(val);
            let hay = to_lowercase(cmp.as_str());
            let needle = to_lowercase(sv.as_str());
            Ok(text_contains(hay.as_str(), needle.as_str()))
        },
        PredicateOperator::Like => {
            let sv = get_single_search_value(value_texts)?;
            let cmp = rendered(val);
            Ok(text_contains(cmp.as_str(), sv.as_str()))
        },
        PredicateOperator::Greater | PredicateOperator::GreaterOrEqual
        | PredicateOperator::Less | PredicateOperator::LessOrEqual => {
            let _sv = get_single_search_value(value_texts)?;
            keep_ordered(val, &values[0], op)
        },
        PredicateOperator::GeoIntersect | PredicateOperator::GeoWithin
        | PredicateOperator::GeoDisjoint => Ok(false),
    }
}

/// Runs a condition over records in order: the records it keeps, and the
/// error that stopped it, if one did (records after it are not looked at).
pub open spec fn filter_run(
    recs: Seq<SearchRecordView>,
    field: Seq<char>,
    values: Seq<SearchValue>,
    op: PredicateOperator,
) -> (Seq<SearchRecordView>, Option<Seq<char>>)
    decreases recs.len(),
{
    if recs.len() == 0 {
        (Seq::empty(), None)
    } else {
        let (kept, err) = filter_run(recs.drop_last(), field, values, op);
        if err is Some {
            (kept, err)
        } else {
            match outcome(recs.last(), field, values, op) {
                Err(e) => (kept, Some(e)),
                Ok(true) => (kept.push(recs.last()), None),
                Ok(false) => (kept, None),
            }
        }
    }
}

proof fn lemma_filter_run_stops(
    recs: Seq<SearchRecordView>,
    field: Seq<char>,
    values: Seq<SearchValue>,
    op: PredicateOperator,
    i: int,
    j: int,
)
    requires
        0 <= i <= j <= recs.len(),
        filter_run(recs.take(i), field, values, op).1 is Some,
    ensures
        filter_run(recs.take(j), field, values, op) == filter_run(recs.take(i), field, values, op),
    decreases j - i,
{
    if j > i {
        lemma_filter_run_stops(recs, field, values, op, i, j - 1);
        assert(recs.take(j).drop_last() =~= recs.take(j - 1));
    }
}

/// Appends to `filtered` the records of `unfiltered` that the condition
/// `operator` on `search_field` with `search_values` keeps, in order. The
/// first record on which the condition raises an error stops the search:
/// the error is returned, and the records kept before it stay appended.
pub fn filter_for_operator(
    search_field: &str,
    search_values: &Vec<SearchValue>,
    unfiltered: &Vec<SearchRecord>,
    filtered: &mut Vec<SearchRecord>,
    operator: PredicateOperator,
) -> (r: Result<(), String>)
    ensures
        views(final(filtered)@) == views(old(filtered)@) + filter_run(
            views(unfiltered@),
            search_field@,
            search_values@,
            operator,
        ).0,
        match r {
            Ok(()) => filter_run(views(unfiltered@), search_field@, search_values@, operator).1 is None,
            Err(e) => filter_run(views(unfiltered@), search_field@, search_values@, operator).1
                == Some(e@),
        },
{
    let ghost recs = views(unfiltered@);
    let ghost start = views(filtered@);
    let mut value_texts: Vec<String> = Vec::new();
    let mut k: usize = 0;
    while k < search_values.len()
        invariant
            k <= search_values@.len(),
            text_list(value_texts@) == texts(search_values@.take(k as int)),
        decreases search_values@.len() - k,
    {
        let ghost before = value_texts@;
        value_texts.push(search_values[k].text.clone());
        proof {
            assert(search_values@.take(k + 1) =~= search_values@.take(k as int).push(search_values@[k as int]));
            assert(text_list(value_texts@) =~= text_list(before).push(search_values@[k as int].text@));
            assert(texts(search_values@.take(k + 1)) =~= texts(search_values@.take(k as int)).push(
                search_values@[k as int].text@,
            ));
        }
        k = k + 1;
    }
    proof {
        assert(search_values@.take(k as int) =~= search_values@);
    }
    let mut i: usize = 0;
    proof {
        assert(recs.take(0) =~= Seq::<SearchRecordView>::empty());
    }
    while i < unfiltered.len()
        invariant
            i <= unfiltered@.len(),
            recs == views(unfiltered@),
            start == views(old(filtered)@),
            text_list(value_texts@) == texts(search_values@),
            filter_run(recs.take(i as int), search_field@, search_values@, operator).1 is None,
            views(filtered@) == start + filter_run(
                recs.take(i as int),
                search_field@,
                search_values@,
                operator,
            ).0,
        decreases unfiltered@.len() - i,
    {
        let record = &unfiltered[i];
        proof {
            assert(recs.take(i + 1).drop_last() =~= recs.take(i as int));
            assert(recs.take(i + 1).last() == record@);
        }
        let found = read_field(record, search_field);
        let val = match found {
            Ok(v) => v,
            Err(e) => {
                proof {
                    assert(filter_run(recs.take(i + 1), search_field@, search_values@, operator) == (
                        filter_run(recs.take(i as int), search_field@, search_values@, operator).0,
                        Some(e@),
                    ));
                    lemma_filter_run_stops(recs, search_field@, search_values@, operator, i + 1, recs.len() as int);
                    assert(recs.take(recs.len() as int) =~= recs);
                }
                return Err(e);
            },
        };
        let decision = keep_value(&val, search_values, &value_texts, operator);
        match decision {
            Ok(true) => {
                let ghost before = filtered@;
                filtered.push(record.clone());
                proof {
                    assert(views(filtered@) =~= views(before).push(record@));
                }
            },
            Ok(false) => {},
            Err(e) => {
                proof {
                    assert(filter_run(recs.take(i + 1), search_field@, search_values@, operator) == (
                        filter_run(recs.take(i as int), search_field@, search_values@, operator).0,
                        Some(e@),
                    ));
                    lemma_filter_run_stops(recs, search_field@, search_values@, operator, i + 1, recs.len() as int);
                    assert(recs.take(recs.len() as int) =~= recs);
                }
                return Err(e);
            },
        }
        i = i + 1;
    }
    proof {
        assert(recs.take(i as int) =~= recs);
    }
    Ok(())
}

/// One condition of a search, with its values read for comparison.
#[derive(Debug)]
pub struct PreparedFilter {
    /// name of the field to search on
    pub search_field: String,
    /// the values to compare the field with
    pub search_value: Vec<SearchValue>,
    /// wire value of a [`PredicateOperator`]
    pub predicate_operator: i32,
    /// wire value of a [`ComparisonOperator`], if any
    pub comparison_operator: Option<i32>,
}

/// The mathematical form of a [`PreparedFilter`].
pub struct PreparedFilterView {
    pub search_field: Seq<char>,
    pub search_value: Seq<SearchValue>,
    pub predicate_operator: i32,
    pub comparison_operator: Option<i32>,
}

impl View for PreparedFilter {
    type V = PreparedFilterView;

    open spec fn view(&self) -> PreparedFilterView {
        PreparedFilterView {
            search_field: self.search_field@,
            search_value: self.search_value@,
            predicate_operator: self.predicate_operator,
            comparison_operator: self.comparison_operator,
        }
    }
}

/// Why a search failed.
#[derive(Debug, Clone, PartialEq, Eq)]
pub enum SearchError {
    /// a condition names no [`PredicateOperator`]: the offending value
    UnknownPredicateOperator(i32),
    /// a condition names no [`ComparisonOperator`]: the offending value
    UnknownComparisonOperator(i32),
    /// a condition raised an error on a record: the message
    Filter(String),
}

/// The mathematical form of a [`SearchError`].
pub enum SearchFailure {
    UnknownPredicateOperator(i32),
    UnknownComparisonOperator(i32),
    Filter(Seq<char>),
}

impl View for SearchError {
    type V = SearchFailure;

    open spec fn view(&self) -> SearchFailure {
        match self {
            SearchError::UnknownPredicateOperator(v) => SearchFailure::UnknownPredicateOperator(*v),
            SearchError::UnknownComparisonOperator(v) => SearchFailure::UnknownComparisonOperator(*v),
            SearchError::Filter(m) => SearchFailure::Filter(m@),
        }
    }
}

/// The message of a search that a condition stopped.
pub open spec fn filter_error(e: Seq<char>) -> Seq<char> {
    "Could not get filtered values for provided filter: "@ + e
}

/// Runs one condition over `source` and appends what it keeps to `base`.
pub open spec fn run_into(
    source: Seq<SearchRecordView>,
    base: Seq<SearchRecordView>,
    f: PreparedFilterView,
    op: PredicateOperator,
) -> Result<Seq<SearchRecordView>, SearchFailure> {
    let (kept, err) = filter_run(source, f.search_field, f.search_value, op);
    match err {
        Some(e) => Err(SearchFailure::Filter(filter_error(e))),
        None => Ok(base + kept),
    }
}

/// One step of a search: given all records and those collected so far, a
/// condition joined with `AND` keeps what it accepts of the collected
/// records; one joined with `OR`, or with no joining operator, appends what
/// it accepts of all records to the collected ones.
pub open spec fn apply_filter(
    list: Seq<SearchRecordView>,
    collected: Seq<SearchRecordView>,
    f: PreparedFilterView,
) -> Result<Seq<SearchRecordView>, SearchFailure> {
    match PredicateOperator::spec_from_value(f.predicate_operator) {
        None => Err(SearchFailure::UnknownPredicateOperator(f.predicate_operator)),
        Some(op) => match f.comparison_operator {
            Some(c) => match ComparisonOperator::spec_from_value(c) {
                None => Err(SearchFailure::UnknownComparisonOperator(c)),
                Some(ComparisonOperator::And) => run_into(collected, Seq::empty(), f, op),
                Some(ComparisonOperator::Or) => run_into(list, collected, f, op),
            },
            None => run_into(list, collected, f, op),
        },
    }
}

/// The conditions applied in order, starting from nothing collected; the
/// first failure ends the search.
pub open spec fn apply_filters(
    list: Seq<SearchRecordView>,
    filters: Seq<PreparedFilterView>,
) -> Result<Seq<SearchRecordView>, SearchFailure>
    decreases filters.len(),
{
    if filters.len() == 0 {
        Ok(Seq::empty())
    } else {
        match apply_filters(list, filters.drop_last()) {
            Err(e) => Err(e),
            Ok(c) => apply_filter(list, c, filters.last()),
        }
    }
}

/// What a search returns: every record when there is no condition, else
/// what the conditions collect.
pub open spec fn search_outcome(
    list: Seq<SearchRecordView>,
    filters: Seq<PreparedFilterView>,
) -> Result<Seq<SearchRecordView>, SearchFailure> {
    if filters.len() == 0 {
        Ok(list)
    } else {
        apply_filters(list, filters)
    }
}

/// The views of a sequence of conditions.
pub open spec fn filter_views(s: Seq<PreparedFilter>) -> Seq<PreparedFilterView> {
    s.map_values(|f: PreparedFilter| f@)
}

fn clone_records(list: &Vec<SearchRecord>) -> (r: Vec<SearchRecord>)
    ensures
        views(r@) == views(list@),
{
    let r = list.clone();
    proof {
        assert forall|i: int| 0 <= i < list@.len() implies r@[i]@ == list@[i]@ by {
            assert(cloned::<SearchRecord>(list@[i], r@[i]));
        }
        assert(views(r@) =~= views(list@));
    }
    r
}

fn run_filter(
    f: &PreparedFilter,
    operator: PredicateOperator,
    source: &Vec<SearchRecord>,
    collected: &mut Vec<SearchRecord>,
) -> (r: Result<(), SearchError>)
    ensures
        match r {
            Ok(()) => run_into(views(source@), views(old(collected)@), f@, operator) == Ok::<
                Seq<SearchRecordView>,
                SearchFailure,
            >(views(final(collected)@)),
            Err(e) => run_into(views(source@), views(old(collected)@), f@, operator) == Err::<
                Seq<SearchRecordView>,
                SearchFailure,
            >(e@),
        },
{
    match filter_for_operator(f.search_field.as_str(), &f.search_value, source, collected, operator) {
        Ok(()) => Ok(()),
        Err(e) => {
            proof {
                reveal_strlit("Could not get filtered values for provided filter: ");
            }
            Err(SearchError::Filter(join_text("Could not get filtered values for provided filter: ", e.as_str())))
        },
    }
}

/// Runs an advanced search over records the way the in-memory backends
/// do: with no condition every record is returned; otherwise the
/// conditions are applied in order (see [`apply_filter`]), and the first
/// unknown operator or failing condition ends the search with its error.
pub fn search_records(list: &Vec<SearchRecord>, filters: &Vec<PreparedFilter>) -> (r: Result<
    Vec<SearchRecord>,
    SearchError,
>)
    ensures
        match r {
            Ok(v) => search_outcome(views(list@), filter_views(filters@)) == Ok::<
                Seq<SearchRecordView>,
                SearchFailure,
            >(views(v@)),
            Err(e) => search_outcome(views(list@), filter_views(filters@)) == Err::<
                Seq<SearchRecordView>,
                SearchFailure,
            >(e@),
        },
{
    if filters.len() == 0 {
        return Ok(clone_records(list));
    }
    let ghost all = views(list@);
    let ghost fs = filter_views(filters@);
    let mut collected: Vec<SearchRecord> = Vec::new();
    let mut i: usize = 0;
    proof {
        assert(fs.take(0) =~= Seq::<PreparedFilterView>::empty());
        assert(views(collected@) =~= Seq::<SearchRecordView>::empty());
    }
    while i < filters.len()
        invariant
            i <= filters@.len(),
            all == views(list@),
            fs == filter_views(filters@),
            apply_filters(all, fs.take(i as int)) == Ok::<Seq<SearchRecordView>, SearchFailure>(
                views(collected@),
            ),
        decreases filters@.len() - i,
    {
        let f = &filters[i];
        proof {
            assert(fs.take(i + 1).drop_last() =~= fs.take(i as int));
            assert(fs.take(i + 1).last() == f@);
        }
        let step: Result<(), SearchError> = match PredicateOperator::try_from(f.predicate_operator) {
            Err(_) => Err(SearchError::UnknownPredicateOperator(f.predicate_operator)),
            Ok(operator) => match f.comparison_operator {
                Some(c) => match ComparisonOperator::try_from(c) {
                    Err(_) => Err(SearchError::UnknownComparisonOperator(c)),
                    Ok(ComparisonOperator::And) => {
                        let unfiltered = clone_records(&collected);
                        collected = Vec::new();
                        proof {
                            assert(views(collected@) =~= Seq::<SearchRecordView>::empty());
                        }
                        run_filter(f, operator, &unfiltered, &mut collected)
                    },
                    Ok(ComparisonOperator::Or) => run_filter(f, operator, list, &mut collected),
                },
                None => run_filter(f, operator, list, &mut collected),
            },
        };
        match step {
            Err(e) => {
                proof {
                    lemma_apply_filters_stops(all, fs, i + 1);
                    assert(fs.take(fs.len() as int) =~= fs);
                }
                return Err(e);
            },
            Ok(()) => {},
        }
        i = i + 1;
    }
    proof {
        assert(fs.take(i as int) =~= fs);
    }
    Ok(collected)
}

proof fn lemma_apply_filters_stops(
    list: Seq<SearchRecordView>,
    filters: Seq<PreparedFilterView>,
    i: int,
)
    requires
        0 <= i <= filters.len(),
        apply_filters(list, filters.take(i)) is Err,
    ensures
        apply_filters(list, filters) == apply_filters(list, filters.take(i)),
    decreases filters.len() - i,
{
    if i < filters.len() {
        assert(filters.take(i + 1).drop_last() =~= filters.take(i));
        lemma_apply_filters_stops(list, filters, i + 1);
    } else {
        assert(filters.take(i) =~= filters);
    }
}

/// Membership and non-membership split the records between them: where a
/// record's field can be read, exactly one of the conditions `IN` and
/// `NOT IN` with the same values keeps it.
pub proof fn lemma_in_and_not_in_complement(
    r: SearchRecordView,
    field: Seq<char>,
    values: Seq<SearchValue>,
)
    requires
        field_value(r, field) is Ok,
    ensures
        outcome(r, field, values, PredicateOperator::In) is Ok,
        outcome(r, field, values, PredicateOperator::NotIn) is Ok,
        outcome(r, field, values, PredicateOperator::In)->Ok_0 != outcome(
            r,
            field,
            values,
            PredicateOperator::NotIn,
        )->Ok_0,
{
}

/// `IS NULL` and `IS NOT NULL` split the records between them: where a
/// record's field can be read, exactly one of them keeps it, whatever the
/// values.
pub proof fn lemma_null_checks_complement(
    r: SearchRecordView,
    field: Seq<char>,
    values: Seq<SearchValue>,
)
    requires
        field_value(r, field) is Ok,
    ensures
        outcome(r, field, values, PredicateOperator::IsNull) is Ok,
        outcome(r, field, values, PredicateOperator::IsNotNull) is Ok,
        outcome(r, field, values, PredicateOperator::IsNull)->Ok_0 != outcome(
            r,
            field,
            values,
            PredicateOperator::IsNotNull,
        )->Ok_0,
{
}

/// With a single value, equality and inequality split the records between
/// them, and equality keeps exactly what membership in that one value
/// keeps.
pub proof fn lemma_equality_with_one_value(r: SearchRecordView, field: Seq<char>, v: SearchValue)
    requires
        field_value(r, field) is Ok,
    ensures
        outcome(r, field, seq![v], PredicateOperator::Equals) is Ok,
        outcome(r, field, seq![v], PredicateOperator::NotEquals) is Ok,
        outcome(r, field, seq![v], PredicateOperator::Equals)->Ok_0 != outcome(
            r,
            field,
            seq![v],
            PredicateOperator::NotEquals,
        )->Ok_0,
        outcome(r, field, seq![v], PredicateOperator::Equals) == outcome(
            r,
            field,
            seq![v],
            PredicateOperator::In,
        ),
{
    let val = field_value(r, field)->Ok_0;
    let t = texts(seq![v]);
    assert(t =~= seq![v.text@]);
    if t.contains(text_of(val)) {
        let k = choose|k: int| 0 <= k < t.len() && t[k] == text_of(val);
        assert(k == 0);
    }
    if text_of(val) == v.text@ {
        assert(t[0] == text_of(val));
    }
}

/// The geometric conditions keep no record, and raise no error of their
/// own: a search with one of them keeps nothing.
pub proof fn lemma_geometric_conditions_keep_nothing(
    recs: Seq<SearchRecordView>,
    field: Seq<char>,
    values: Seq<SearchValue>,
    op: PredicateOperator,
)
    requires
        op == PredicateOperator::GeoIntersect || op == PredicateOperator::GeoWithin || op
            == PredicateOperator::GeoDisjoint,
    ensures
        filter_run(recs, field, values, op).0.len() == 0,
    decreases recs.len(),
{
    if recs.len() > 0 {
        lemma_geometric_conditions_keep_nothing(recs.drop_last(), field, values, op);
    }
}

/// A condition keeps only records it was given, at most as many as it was
/// given, and in the order it was given them: what it keeps is a
/// subsequence of its input.
pub proof fn lemma_kept_records_come_from_input(
    recs: Seq<SearchRecordView>,
    field: Seq<char>,
    values: Seq<SearchValue>,
    op: PredicateOperator,
)
    ensures
        ({
            let kept = filter_run(recs, field, values, op).0;
            exists|idx: Seq<int>|
                #![trigger idx.len()]
                idx.len() == kept.len() && (forall|k: int|
                    0 <= k < idx.len() ==> 0 <= #[trigger] idx[k] < recs.len() && kept[k]
                        == recs[idx[k]]) && (forall|k: int, l: int|
                    0 <= k < l < idx.len() ==> #[trigger] idx[k] < #[trigger] idx[l])
        }),
    decreases recs.len(),
{
    let kept = filter_run(recs, field, values, op).0;
    if recs.len() == 0 {
        let idx = Seq::<int>::empty();
        assert(idx.len() == kept.len());
    } else {
        let prev = recs.drop_last();
        lemma_kept_records_come_from_input(prev, field, values, op);
        let pk = filter_run(prev, field, values, op).0;
        let idx0 = choose|idx: Seq<int>|
            #![trigger idx.len()]
            idx.len() == pk.len() && (forall|k: int|
                0 <= k < idx.len() ==> 0 <= #[trigger] idx[k] < prev.len() && pk[k] == prev[idx[k]])
                && (forall|k: int, l: int|
                0 <= k < l < idx.len() ==> #[trigger] idx[k] < #[trigger] idx[l]);
        if kept.len() == pk.len() {
            assert(kept == pk);
            assert(idx0.len() == kept.len());
        } else {
            let idx = idx0.push(recs.len() - 1);
            assert(kept == pk.push(recs.last()));
            assert(forall|k: int| 0 <= k < idx0.len() ==> idx[k] == idx0[k]);
            assert(idx.len() == kept.len());
        }
    }
}

/// A condition joined with `AND` narrows what was collected: on success,
/// every record it returns was among the records collected before it.
pub proof fn lemma_and_narrows(
    list: Seq<SearchRecordView>,
    collected: Seq<SearchRecordView>,
    f: PreparedFilterView,
)
    requires
        f.comparison_operator == Some(ComparisonOperator::And.spec_value()),
        apply_filter(list, collected, f) is Ok,
    ensures
        forall|x: SearchRecordView|
            apply_filter(list, collected, f)->Ok_0.contains(x) ==> collected.contains(x),
{
    let op = PredicateOperator::spec_from_value(f.predicate_operator)->Some_0;
    lemma_kept_records_come_from_input(collected, f.search_field, f.search_value, op);
    let kept = filter_run(collected, f.search_field, f.search_value, op).0;
    assert(Seq::<SearchRecordView>::empty() + kept =~= kept);
    assert forall|x: SearchRecordView| kept.contains(x) implies collected.contains(x) by {
        let k = choose|k: int| 0 <= k < kept.len() && kept[k] == x;
        let idx = choose|idx: Seq<int>|
            #![trigger idx.len()]
            idx.len() == kept.len() && (forall|k: int|
                0 <= k < idx.len() ==> 0 <= #[trigger] idx[k] < collected.len() && kept[k]
                    == collected[idx[k]]) && (forall|k: int, l: int|
                0 <= k < l < idx.len() ==> #[trigger] idx[k] < #[trigger] idx[l]);
        assert(kept[k] == collected[idx[k]]);
    }
}

/// A condition joined with `OR`, or with no joining operator, keeps what
/// was collected: on success, the records collected before it come first,
/// unchanged.
pub proof fn lemma_or_extends(
    list: Seq<SearchRecordView>,
    collected: Seq<SearchRecordView>,
    f: PreparedFilterView,
)
    requires
        f.comparison_operator is None || f.comparison_operator == Some(
            ComparisonOperator::Or.spec_value(),
        ),
        apply_filter(list, collected, f) is Ok,
    ensures
        apply_filter(list, collected, f)->Ok_0.len() >= collected.len(),
        apply_filter(list, collected, f)->Ok_0.take(collected.len() as int) == collected,
{
    let res = apply_filter(list, collected, f)->Ok_0;
    assert(res.take(collected.len() as int) =~= collected);
}

/// A condition that raises no error on any of the records keeps exactly
/// the records it accepts, in order.
pub proof fn lemma_filter_run_is_filter(
    recs: Seq<SearchRecordView>,
    field: Seq<char>,
    values: Seq<SearchValue>,
    op: PredicateOperator,
)
    requires
        forall|k: int| 0 <= k < recs.len() ==> (#[trigger] outcome(recs[k], field, values, op)) is Ok,
    ensures
        filter_run(recs, field, values, op).1 is None,
        filter_run(recs, field, values, op).0 == recs.filter(
            |r: SearchRecordView| outcome(r, field, values, op) == Ok::<bool, Seq<char>>(true),
        ),
    decreases recs.len(),
{
    reveal(Seq::filter);
    if recs.len() > 0 {
        let p = recs.drop_last();
        assert forall|k: int| 0 <= k < p.len() implies (#[trigger] outcome(p[k], field, values, op)) is Ok by {
            assert(p[k] == recs[k]);
        }
        lemma_filter_run_is_filter(p, field, values, op);
        assert(outcome(recs[recs.len() - 1], field, values, op) is Ok);
    }
}

/// A search whose one condition is `IS NULL` (joined by nothing, or by
/// `OR`), over records whose field can be read, returns exactly the records
/// whose field reads null, in order.
pub proof fn lemma_null_search(list: Seq<SearchRecordView>, f: PreparedFilterView)
    requires
        f.predicate_operator == PredicateOperator::IsNull.spec_value(),
        f.comparison_operator is None || f.comparison_operator == Some(
            ComparisonOperator::Or.spec_value(),
        ),
        forall|k: int| 0 <= k < list.len() ==> (#[trigger] field_value(list[k], f.search_field)) is Ok,
    ensures
        search_outcome(list, seq![f]) == Ok::<Seq<SearchRecordView>, SearchFailure>(
            list.filter(|r: SearchRecordView| field_value(r, f.search_field)->Ok_0 is Null),
        ),
{
    let op = PredicateOperator::IsNull;
    assert forall|k: int| 0 <= k < list.len() implies (#[trigger] outcome(
        list[k],
        f.search_field,
        f.search_value,
        op,
    )) is Ok by {
        assert(field_value(list[k], f.search_field) is Ok);
    }
    lemma_filter_run_is_filter(list, f.search_field, f.search_value, op);
    let a = list.filter(
        |r: SearchRecordView| outcome(r, f.search_field, f.search_value, op) == Ok::<bool, Seq<char>>(true),
    );
    let b = list.filter(|r: SearchRecordView| field_value(r, f.search_field)->Ok_0 is Null);
    lemma_same_filter(list, f.search_field, f.search_value, op);
    lemma_predicate_operator_names_and_values(op, f.predicate_operator);
    lemma_comparison_operator_names_and_values(ComparisonOperator::Or, 0);
    let fs = seq![f];
    assert(fs.drop_last() =~= Seq::<PreparedFilterView>::empty());
    assert(fs.last() == f);
    assert(apply_filters(list, fs.drop_last()) == Ok::<Seq<SearchRecordView>, SearchFailure>(
        Seq::empty(),
    ));
    assert(Seq::<SearchRecordView>::empty() + a =~= a);
    assert(run_into(list, Seq::empty(), f, op) == Ok::<Seq<SearchRecordView>, SearchFailure>(a));
    assert(apply_filter(list, Seq::empty(), f) == Ok::<Seq<SearchRecordView>, SearchFailure>(a));
}

proof fn lemma_same_filter(
    list: Seq<SearchRecordView>,
    field: Seq<char>,
    values: Seq<SearchValue>,
    op: PredicateOperator,
)
    requires
        op == PredicateOperator::IsNull,
        forall|k: int| 0 <= k < list.len() ==> (#[trigger] field_value(list[k], field)) is Ok,
    ensures
        list.filter(|r: SearchRecordView| outcome(r, field, values, op) == Ok::<bool, Seq<char>>(true))
            == list.filter(|r: SearchRecordView| field_value(r, field)->Ok_0 is Null),
    decreases list.len(),
{
    reveal(Seq::filter);
    if list.len() > 0 {
        let p = list.drop_last();
        assert forall|k: int| 0 <= k < p.len() implies (#[trigger] field_value(p[k], field)) is Ok by {
            assert(p[k] == list[k]);
        }
        lemma_same_filter(p, field, values, op);
        assert(field_value(list[list.len() - 1], field) is Ok);
    }
}

/// Ordering conditions on numbers compare them as numbers: with a search
/// value read as a number, GREATER keeps exactly the larger values, GREATER
/// OR EQUAL the values not smaller, LESS the smaller, LESS OR EQUAL the
/// values not larger (an equal value is kept by the two inclusive ones and
/// dropped by the two strict ones); with NaN nothing is kept.
pub proof fn lemma_number_ordering(text: String, key: i64, sv: SearchValue)
    ensures
        sv.number matches NumberParse::Ordered(k) ==> {
            &&& keep(JsonValue::Number { text, key }, seq![sv], PredicateOperator::Greater)
                == Ok::<bool, Seq<char>>(key > k)
            &&& keep(JsonValue::Number { text, key }, seq![sv], PredicateOperator::GreaterOrEqual)
                == Ok::<bool, Seq<char>>(key > k || key == k)
            &&& keep(JsonValue::Number { text, key }, seq![sv], PredicateOperator::Less)
                == Ok::<bool, Seq<char>>(key < k)
            &&& keep(JsonValue::Number { text, key }, seq![sv], PredicateOperator::LessOrEqual)
                == Ok::<bool, Seq<char>>(key < k || key == k)
        },
        sv.number is Unordered ==> {
            &&& keep(JsonValue::Number { text, key }, seq![sv], PredicateOperator::Greater)
                == Ok::<bool, Seq<char>>(false)
            &&& keep(JsonValue::Number { text, key }, seq![sv], PredicateOperator::GreaterOrEqual)
                == Ok::<bool, Seq<char>>(false)
            &&& keep(JsonValue::Number { text, key }, seq![sv], PredicateOperator::Less)
                == Ok::<bool, Seq<char>>(false)
            &&& keep(JsonValue::Number { text, key }, seq![sv], PredicateOperator::LessOrEqual)
                == Ok::<bool, Seq<char>>(false)
        },
{
}

/// Ordering conditions on dates compare the instants the texts denote, in
/// time order (seconds first, then nanoseconds): GREATER keeps the later
/// instants, LESS the earlier, and the inclusive ones also keep an instant
/// equal to the search value's.
pub proof fn lemma_date_ordering(s: String, sv: SearchValue, t: (i64, u32), u: (i64, u32))
    requires
        rfc3339_parse(s@) == Ok::<(i64, u32), Seq<char>>(t),
        rfc3339_parse(sv.text@) == Ok::<(i64, u32), Seq<char>>(u),
    ensures
        keep(JsonValue::Text(s), seq![sv], PredicateOperator::Greater) == Ok::<bool, Seq<char>>(
            t.0 > u.0 || (t.0 == u.0 && t.1 > u.1),
        ),
        keep(JsonValue::Text(s), seq![sv], PredicateOperator::GreaterOrEqual) == Ok::<
            bool,
            Seq<char>,
        >(t.0 > u.0 || (t.0 == u.0 && t.1 >= u.1)),
        keep(JsonValue::Text(s), seq![sv], PredicateOperator::Less) == Ok::<bool, Seq<char>>(
            t.0 < u.0 || (t.0 == u.0 && t.1 < u.1),
        ),
        keep(JsonValue::Text(s), seq![sv], PredicateOperator::LessOrEqual) == Ok::<bool, Seq<char>>(
            t.0 < u.0 || (t.0 == u.0 && t.1 <= u.1),
        ),
        keep(JsonValue::Text(s), seq![sv], PredicateOperator::LessOrEqual) == Ok::<bool, Seq<char>>(
            keep(JsonValue::Text(s), seq![sv], PredicateOperator::Less)->Ok_0 || t == u,
        ),
        keep(JsonValue::Text(s), seq![sv], PredicateOperator::GreaterOrEqual) == Ok::<
            bool,
            Seq<char>,
        >(keep(JsonValue::Text(s), seq![sv], PredicateOperator::Greater)->Ok_0 || t == u),
{
}

/// A range on numbers includes both bounds: with both bounds read as
/// numbers, BETWEEN keeps exactly the values from the lower bound to the
/// upper one, the bounds themselves included (values after the first two
/// are ignored).
pub proof fn lemma_number_between(
    text: String,
    key: i64,
    min: SearchValue,
    max: SearchValue,
    rest: Seq<SearchValue>,
    lo: i64,
    hi: i64,
)
    requires
        min.number == NumberParse::Ordered(lo),
        max.number == NumberParse::Ordered(hi),
    ensures
        keep(JsonValue::Number { text, key }, seq![min, max] + rest, PredicateOperator::Between)
            == Ok::<bool, Seq<char>>(lo <= key && key <= hi),
        lo <= hi ==> keep(
            JsonValue::Number { text, key: lo },
            seq![min, max] + rest,
            PredicateOperator::Between,
        ) == Ok::<bool, Seq<char>>(true),
        lo <= hi ==> keep(
            JsonValue::Number { text, key: hi },
            seq![min, max] + rest,
            PredicateOperator::Between,
        ) == Ok::<bool, Seq<char>>(true),
{
    let v = seq![min, max] + rest;
    assert(v[0] == min && v[1] == max);
}

/// A range on dates includes both bounds: with the value and both bounds
/// read as dates, BETWEEN keeps exactly the instants from the lower bound's
/// to the upper bound's, both included.
pub proof fn lemma_date_between(
    s: String,
    min: SearchValue,
    max: SearchValue,
    rest: Seq<SearchValue>,
    t: (i64, u32),
    lo: (i64, u32),
    hi: (i64, u32),
)
    requires
        rfc3339_parse(s@) == Ok::<(i64, u32), Seq<char>>(t),
        rfc3339_parse(min.text@) == Ok::<(i64, u32), Seq<char>>(lo),
        rfc3339_parse(max.text@) == Ok::<(i64, u32), Seq<char>>(hi),
    ensures
        keep(JsonValue::Text(s), seq![min, max] + rest, PredicateOperator::Between) == Ok::<
            bool,
            Seq<char>,
        >((lo.0 < t.0 || (lo.0 == t.0 && lo.1 <= t.1)) && (t.0 < hi.0 || (t.0 == hi.0 && t.1
            <= hi.1))),
        t == lo && (lo.0 < hi.0 || (lo.0 == hi.0 && lo.1 <= hi.1)) ==> keep(
            JsonValue::Text(s),
            seq![min, max] + rest,
            PredicateOperator::Between,
        ) == Ok::<bool, Seq<char>>(true),
        t == hi && (lo.0 < hi.0 || (lo.0 == hi.0 && lo.1 <= hi.1)) ==> keep(
            JsonValue::Text(s),
            seq![min, max] + rest,
            PredicateOperator::Between,
        ) == Ok::<bool, Seq<char>>(true),
{
    let v = seq![min, max] + rest;
    assert(v[0] == min && v[1] == max);
}

/// A boolean, array or object value is compared by its JSON text:
/// EQUALS with one value keeps it exactly when that value is its text,
/// NOT EQUALS exactly when it is not, IN exactly when one of the values is
/// its text, LIKE exactly when the value occurs in its text.
pub proof fn lemma_other_values_compare_their_text(
    t: String,
    sv: SearchValue,
    values: Seq<SearchValue>,
)
    ensures
        keep(JsonValue::Other(t), seq![sv], PredicateOperator::Equals) == Ok::<bool, Seq<char>>(
            t@ == sv.text@,
        ),
        keep(JsonValue::Other(t), seq![sv], PredicateOperator::NotEquals) == Ok::<
            bool,
            Seq<char>,
        >(t@ != sv.text@),
        keep(JsonValue::Other(t), values, PredicateOperator::In) == Ok::<bool, Seq<char>>(
            exists|k: int| 0 <= k < values.len() && #[trigger] values[k].text@ == t@,
        ),
        keep(JsonValue::Other(t), seq![sv], PredicateOperator::Like) == Ok::<bool, Seq<char>>(
            exists|i: int|
                0 <= i && i + sv.text@.len() <= t@.len() && #[trigger] t@.subrange(
                    i,
                    i + sv.text@.len(),
                ) == sv.text@,
        ),
{
    let tv = texts(values);
    if tv.contains(t@) {
        let k = choose|k: int| 0 <= k < tv.len() && tv[k] == t@;
        assert(values[k].text@ == t@);
    }
    if exists|k: int| 0 <= k < values.len() && #[trigger] values[k].text@ == t@ {
        let k = choose|k: int| 0 <= k < values.len() && #[trigger] values[k].text@ == t@;
        assert(tv[k] == t@);
    }
    if contains_seq(t@, sv.text@) {
        let i = choose|i: int| occurs_at(t@, sv.text@, i);
        assert(t@.subrange(i, i + sv.text@.len()) == sv.text@);
    }
    if exists|i: int|
        0 <= i && i + sv.text@.len() <= t@.len() && #[trigger] t@.subrange(i, i + sv.text@.len())
            == sv.text@ {
        let i = choose|i: int|
            0 <= i && i + sv.text@.len() <= t@.len() && #[trigger] t@.subrange(
                i,
                i + sv.text@.len(),
            ) == sv.text@;
        assert(occurs_at(t@, sv.text@, i));
    }
}

/// Equality compares a string without its quotes, a number by its JSON
/// text and a missing or null value as `null`: EQUALS with one value keeps
/// exactly the values whose text that is.
pub proof fn lemma_equality_compares_json_text(s: String, text: String, key: i64, sv: SearchValue)
    ensures
        keep(JsonValue::Text(s), seq![sv], PredicateOperator::Equals) == Ok::<bool, Seq<char>>(
            s@ == sv.text@,
        ),
        keep(JsonValue::Number { text, key }, seq![sv], PredicateOperator::Equals) == Ok::<
            bool,
            Seq<char>,
        >(text@ == sv.text@),
        keep(JsonValue::Null, seq![sv], PredicateOperator::Equals) == Ok::<bool, Seq<char>>(
            sv.text@ == seq!['n', 'u', 'l', 'l'],
        ),
{
    reveal_strlit("null");
    assert("null"@ =~= seq!['n', 'u', 'l', 'l']);
}

} // verus!
