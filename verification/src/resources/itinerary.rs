//! Itinerary records.

use vstd::prelude::*;
use vstd::std_specs::convert::{FromSpecImpl, TryFromSpecImpl};
use crate::text::text_eq;
use crate::UnknownEnumValue;

pub mod mock;

verus! {

/// State of an itinerary
#[derive(Clone, Copy, Debug, PartialEq, Eq, Structural, Hash, PartialOrd, Ord)]
pub enum ItineraryStatus {
    /// ACTIVE
    Active,
    /// CANCELLED
    Cancelled,
}

impl ItineraryStatus {
    /// The wire value of the variant.
    pub open spec fn spec_value(self) -> i32 {
        match self {
            ItineraryStatus::Active => 0,
            ItineraryStatus::Cancelled => 1,
        }
    }

    /// The variant with the given wire value, if any.
    pub open spec fn spec_from_value(value: i32) -> Option<ItineraryStatus> {
        if value == 0 {
            Some(ItineraryStatus::Active)
        } else if value == 1 {
            Some(ItineraryStatus::Cancelled)
        } else {
            None
        }
    }

    /// The field name used in the ProtoBuf definition.
    pub open spec fn spec_str_name(self) -> Seq<char> {
        match self {
            ItineraryStatus::Active => "ACTIVE"@,
            ItineraryStatus::Cancelled => "CANCELLED"@,
        }
    }

    /// The variant whose ProtoBuf field name is `name`, if any.
    pub open spec fn spec_from_str_name(name: Seq<char>) -> Option<ItineraryStatus> {
        if name == "ACTIVE"@ {
            Some(ItineraryStatus::Active)
        } else if name == "CANCELLED"@ {
            Some(ItineraryStatus::Cancelled)
        } else {
            None
        }
    }

    /// The wire value of the variant.
    pub fn value(&self) -> (r: i32)
        ensures
            r == self.spec_value(),
    {
        match self {
            ItineraryStatus::Active => 0,
            ItineraryStatus::Cancelled => 1,
        }
    }

    /// The variant with the given wire value, if any.
    pub fn from_value(value: i32) -> (r: Option<ItineraryStatus>)
        ensures
            r == ItineraryStatus::spec_from_value(value),
    {
        if value == 0 {
            Some(ItineraryStatus::Active)
        } else if value == 1 {
            Some(ItineraryStatus::Cancelled)
        } else {
            None
        }
    }

    /// String value of the enum field names used in the ProtoBuf definition.
    pub fn as_str_name(&self) -> (r: &'static str)
        ensures
            r@ == self.spec_str_name(),
    {
        match self {
            ItineraryStatus::Active => "ACTIVE",
            ItineraryStatus::Cancelled => "CANCELLED",
        }
    }

    /// Creates an enum from field names used in the ProtoBuf definition.
    pub fn from_str_name(value: &str) -> (r: Option<ItineraryStatus>)
        ensures
            r == ItineraryStatus::spec_from_str_name(value@),
    {
        if text_eq(value, "ACTIVE") {
            Some(ItineraryStatus::Active)
        } else if text_eq(value, "CANCELLED") {
            Some(ItineraryStatus::Cancelled)
        } else {
            None
        }
    }
}

impl TryFrom<i32> for ItineraryStatus {
    type Error = UnknownEnumValue;

    fn try_from(value: i32) -> (r: Result<ItineraryStatus, UnknownEnumValue>) {
        match ItineraryStatus::from_value(value) {
            Some(v) => Ok(v),
            None => Err(UnknownEnumValue(value)),
        }
    }
}

impl TryFromSpecImpl<i32> for ItineraryStatus {
    open spec fn obeys_try_from_spec() -> bool {
        true
    }

    open spec fn try_from_spec(value: i32) -> Result<ItineraryStatus, UnknownEnumValue> {
        match ItineraryStatus::spec_from_value(value) {
            Some(v) => Ok(v),
            None => Err(UnknownEnumValue(value)),
        }
    }
}

impl From<ItineraryStatus> for i32 {
    fn from(value: ItineraryStatus) -> (r: i32) {
        value.value()
    }
}

impl FromSpecImpl<ItineraryStatus> for i32 {
    open spec fn obeys_from_spec() -> bool {
        true
    }

    open spec fn from_spec(value: ItineraryStatus) -> i32 {
        value.spec_value()
    }
}

/// Every ItineraryStatus is found again from its ProtoBuf field name, and from its
/// wire value; and a wire value that names a variant is that variant's value.
pub proof fn lemma_itinerary_status_names_and_values(op: ItineraryStatus, value: i32)
    ensures
        ItineraryStatus::spec_from_str_name(op.spec_str_name()) == Some(op),
        ItineraryStatus::spec_from_value(op.spec_value()) == Some(op),
        ItineraryStatus::spec_from_value(value) == Some(op) ==> op.spec_value() == value,
{
    match op {
        ItineraryStatus::Active => {
            assert(ItineraryStatus::spec_from_str_name("ACTIVE"@) == Some(ItineraryStatus::Active));
        },
        ItineraryStatus::Cancelled => {
            assert("CANCELLED"@ != "ACTIVE"@) by {
                reveal_strlit("CANCELLED");
                reveal_strlit("ACTIVE");
                assert("CANCELLED"@.len() != "ACTIVE"@.len());
            }
            assert(ItineraryStatus::spec_from_str_name("CANCELLED"@) == Some(ItineraryStatus::Cancelled));
        },
    }
}
/// An itinerary.
#[derive(Clone, Debug, PartialEq, Eq, Default)]
pub struct Data {
    /// id of the user the itinerary belongs to
    pub user_id: String,
    /// wire value of an [`ItineraryStatus`]
    pub status: i32,
}

} // verus!
