//! Vertiports: the demo locations at which sample vertiports are placed.

use vstd::prelude::*;
use crate::resources::Timestamp;

pub mod mock;

verus! {

/// A vertiport; its outline is kept beside it, as coordinates are not held
/// here.
#[derive(Clone, Debug, PartialEq, Eq, Default)]
pub struct Data {
    /// name
    pub name: String,
    /// description
    pub description: String,
    /// availability schedule (iCalendar recurrence rules)
    pub schedule: Option<String>,
    /// when the record was created
    pub created_at: Option<Timestamp>,
    /// when the record was last updated
    pub updated_at: Option<Timestamp>,
}

/// Enum linking locations to a position in the locations vector provided by
/// the demo location list
#[derive(Debug, Copy, Clone, PartialEq, Eq, Structural)]
pub enum Location {
    /// Position of Escondido US
    USEscondido,
    /// Position of Kaufungen DE
    DEKaufungen,
    /// Position of Wijdenes NL
    NLWijdenes,
    /// Position of Hoorn NL
    NLHoorn,
    /// Position of Katwoude NL
    NLKatwoude,
    /// Position of Den Helder NL
    NLDenHelder,
}

impl Location {
    /// The position of the location in the demo location list.
    pub open spec fn spec_position(self) -> u32 {
        match self {
            Location::USEscondido => 0,
            Location::DEKaufungen => 1,
            Location::NLWijdenes => 2,
            Location::NLHoorn => 3,
            Location::NLKatwoude => 4,
            Location::NLDenHelder => 5,
        }
    }

    /// The position of the location in the demo location list.
    pub fn position(&self) -> (r: u32)
        ensures
            r == self.spec_position(),
    {
        match self {
            Location::USEscondido => 0,
            Location::DEKaufungen => 1,
            Location::NLWijdenes => 2,
            Location::NLHoorn => 3,
            Location::NLKatwoude => 4,
            Location::NLDenHelder => 5,
        }
    }

    /// The location at position `position` of the demo location list.
    pub fn from_position(position: u32) -> (r: Location)
        requires
            position < 6,
        ensures
            r.spec_position() == position,
    {
        if position == 0 {
            Location::USEscondido
        } else if position == 1 {
            Location::DEKaufungen
        } else if position == 2 {
            Location::NLWijdenes
        } else if position == 3 {
            Location::NLHoorn
        } else if position == 4 {
            Location::NLKatwoude
        } else {
            Location::NLDenHelder
        }
    }

    /// The entry of `list` at the location's position: the location used
    /// as an index.
    pub fn index_in<'a, T>(&self, list: &'a Vec<T>) -> (r: &'a T)
        requires
            self.spec_position() < list@.len(),
        ensures
            *r == list@[self.spec_position() as int],
    {
        let i = self.position();
        &list[i as usize]
    }

    /// Whether a location list of `count` entries holds an entry for the
    /// location: whether the location's position lies below `count`. The
    /// demo list of six entries holds every location.
    pub fn listed_in(&self, count: usize) -> (r: bool)
        ensures
            r == (self.spec_position() < count),
    {
        (self.position() as u64) < (count as u64)
    }
}

/// Every location has a distinct position below six.
pub proof fn lemma_positions_distinct(a: Location, b: Location)
    ensures
        a.spec_position() < 6,
        a.spec_position() == b.spec_position() <==> a == b,
{
}

/// The demo locations in the order of the demo location list: Escondido,
/// Kaufungen, Wijdenes, Hoorn, Katwoude, Den Helder.
pub open spec fn demo_order() -> Seq<Location> {
    seq![
        Location::USEscondido,
        Location::DEKaufungen,
        Location::NLWijdenes,
        Location::NLHoorn,
        Location::NLKatwoude,
        Location::NLDenHelder,
    ]
}

/// Each location's position is its place in the demo location list, so a
/// location used as an index picks its own entry of that list, and the
/// location at a position is the one listed there.
pub proof fn lemma_position_is_place_in_demo_list(i: int)
    requires
        0 <= i < 6,
    ensures
        demo_order()[i].spec_position() == i,
        forall|l: Location| l.spec_position() == i ==> l == demo_order()[i],
{
}

} // verus!
