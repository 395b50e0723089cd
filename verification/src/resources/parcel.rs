//! Parcel records.

use vstd::prelude::*;
use vstd::std_specs::convert::{FromSpecImpl, TryFromSpecImpl};
use crate::text::text_eq;
use crate::UnknownEnumValue;

pub mod mock;

verus! {

/// Where a parcel is in its delivery
#[derive(Clone, Copy, Debug, PartialEq, Eq, Structural, Hash, PartialOrd, Ord)]
pub enum ParcelStatus {
    /// NOTDROPPEDOFF
    Notdroppedoff,
    /// DROPPEDOFF
    Droppedoff,
    /// ENROUTE
    Enroute,
    /// ARRIVED
    Arrived,
    /// PICKEDUP
    Pickedup,
    /// COMPLETE
    Complete,
}

impl ParcelStatus {
    /// The wire value of the variant.
    pub open spec fn spec_value(self) -> i32 {
        match self {
            ParcelStatus::Notdroppedoff => 0,
            ParcelStatus::Droppedoff => 1,
            ParcelStatus::Enroute => 2,
            ParcelStatus::Arrived => 3,
            ParcelStatus::Pickedup => 4,
            ParcelStatus::Complete => 5,
        }
    }

    /// The variant with the given wire value, if any.
    pub open spec fn spec_from_value(value: i32) -> Option<ParcelStatus> {
        if value == 0 {
            Some(ParcelStatus::Notdroppedoff)
        } else if value == 1 {
            Some(ParcelStatus::Droppedoff)
        } else if value == 2 {
            Some(ParcelStatus::Enroute)
        } else if value == 3 {
            Some(ParcelStatus::Arrived)
        } else if value == 4 {
            Some(ParcelStatus::Pickedup)
        } else if value == 5 {
            Some(ParcelStatus::Complete)
        } else {
            None
        }
    }

    /// The field name used in the ProtoBuf definition.
    pub open spec fn spec_str_name(self) -> Seq<char> {
        match self {
            ParcelStatus::Notdroppedoff => "NOTDROPPEDOFF"@,
            ParcelStatus::Droppedoff => "DROPPEDOFF"@,
            ParcelStatus::Enroute => "ENROUTE"@,
            ParcelStatus::Arrived => "ARRIVED"@,
            ParcelStatus::Pickedup => "PICKEDUP"@,
            ParcelStatus::Complete => "COMPLETE"@,
        }
    }

    /// The variant whose ProtoBuf field name is `name`, if any.
    pub open spec fn spec_from_str_name(name: Seq<char>) -> Option<ParcelStatus> {
        if name == "NOTDROPPEDOFF"@ {
            Some(ParcelStatus::Notdroppedoff)
        } else if name == "DROPPEDOFF"@ {
            Some(ParcelStatus::Droppedoff)
        } else if name == "ENROUTE"@ {
            Some(ParcelStatus::Enroute)
        } else if name == "ARRIVED"@ {
            Some(ParcelStatus::Arrived)
        } else if name == "PICKEDUP"@ {
            Some(ParcelStatus::Pickedup)
        } else if name == "COMPLETE"@ {
            Some(ParcelStatus::Complete)
        } else {
            None
        }
    }

    /// The wire value of the variant.
    pub fn value(&self) -> (r: i32)
        ensures
            r == self.spec_value(),
    {
        match self {
            ParcelStatus::Notdroppedoff => 0,
            ParcelStatus::Droppedoff => 1,
            ParcelStatus::Enroute => 2,
            ParcelStatus::Arrived => 3,
            ParcelStatus::Pickedup => 4,
            ParcelStatus::Complete => 5,
        }
    }

    /// The variant with the given wire value, if any.
    pub fn from_value(value: i32) -> (r: Option<ParcelStatus>)
        ensures
            r == ParcelStatus::spec_from_value(value),
    {
        if value == 0 {
            Some(ParcelStatus::Notdroppedoff)
        } else if value == 1 {
            Some(ParcelStatus::Droppedoff)
        } else if value == 2 {
            Some(ParcelStatus::Enroute)
        } else if value == 3 {
            Some(ParcelStatus::Arrived)
        } else if value == 4 {
            Some(ParcelStatus::Pickedup)
        } else if value == 5 {
            Some(ParcelStatus::Complete)
        } else {
            None
        }
    }

    /// String value of the enum field names used in the ProtoBuf definition.
    pub fn as_str_name(&self) -> (r: &'static str)
        ensures
            r@ == self.spec_str_name(),
    {
        match self {
            ParcelStatus::Notdroppedoff => "NOTDROPPEDOFF",
            ParcelStatus::Droppedoff => "DROPPEDOFF",
            ParcelStatus::Enroute => "ENROUTE",
            ParcelStatus::Arrived => "ARRIVED",
            ParcelStatus::Pickedup => "PICKEDUP",
            ParcelStatus::Complete => "COMPLETE",
        }
    }

    /// Creates an enum from field names used in the ProtoBuf definition.
    pub fn from_str_name(value: &str) -> (r: Option<ParcelStatus>)
        ensures
            r == ParcelStatus::spec_from_str_name(value@),
    {
        if text_eq(value, "NOTDROPPEDOFF") {
            Some(ParcelStatus::Notdroppedoff)
        } else if text_eq(value, "DROPPEDOFF") {
            Some(ParcelStatus::Droppedoff)
        } else if text_eq(value, "ENROUTE") {
            Some(ParcelStatus::Enroute)
        } else if text_eq(value, "ARRIVED") {
            Some(ParcelStatus::Arrived)
        } else if text_eq(value, "PICKEDUP") {
            Some(ParcelStatus::Pickedup)
        } else if text_eq(value, "COMPLETE") {
            Some(ParcelStatus::Complete)
        } else {
            None
        }
    }
}

impl TryFrom<i32> for ParcelStatus {
    type Error = UnknownEnumValue;

    fn try_from(value: i32) -> (r: Result<ParcelStatus, UnknownEnumValue>) {
        match ParcelStatus::from_value(value) {
            Some(v) => Ok(v),
            None => Err(UnknownEnumValue(value)),
        }
    }
}

impl TryFromSpecImpl<i32> for ParcelStatus {
    open spec fn obeys_try_from_spec() -> bool {
        true
    }

    open spec fn try_from_spec(value: i32) -> Result<ParcelStatus, UnknownEnumValue> {
        match ParcelStatus::spec_from_value(value) {
            Some(v) => Ok(v),
            None => Err(UnknownEnumValue(value)),
        }
    }
}

impl From<ParcelStatus> for i32 {
    fn from(value: ParcelStatus) -> (r: i32) {
        value.value()
    }
}

impl FromSpecImpl<ParcelStatus> for i32 {
    open spec fn obeys_from_spec() -> bool {
        true
    }

    open spec fn from_spec(value: ParcelStatus) -> i32 {
        value.spec_value()
    }
}

/// Every ParcelStatus is found again from its ProtoBuf field name, and from its
/// wire value; and a wire value that names a variant is that variant's value.
pub proof fn lemma_parcel_status_names_and_values(op: ParcelStatus, value: i32)
    ensures
        ParcelStatus::spec_from_str_name(op.spec_str_name()) == Some(op),
        ParcelStatus::spec_from_value(op.spec_value()) == Some(op),
        ParcelStatus::spec_from_value(value) == Some(op) ==> op.spec_value() == value,
{
    match op {
        ParcelStatus::Notdroppedoff => {
            assert(ParcelStatus::spec_from_str_name("NOTDROPPEDOFF"@) == Some(ParcelStatus::Notdroppedoff));
        },
        ParcelStatus::Droppedoff => {
            assert("DROPPEDOFF"@ != "NOTDROPPEDOFF"@) by {
                reveal_strlit("DROPPEDOFF");
                reveal_strlit("NOTDROPPEDOFF");
                assert("DROPPEDOFF"@.len() != "NOTDROPPEDOFF"@.len());
            }
            assert(ParcelStatus::spec_from_str_name("DROPPEDOFF"@) == Some(ParcelStatus::Droppedoff));
        },
        ParcelStatus::Enroute => {
            assert("ENROUTE"@ != "NOTDROPPEDOFF"@) by {
                reveal_strlit("ENROUTE");
                reveal_strlit("NOTDROPPEDOFF");
                assert("ENROUTE"@.len() != "NOTDROPPEDOFF"@.len());
            }
            assert("ENROUTE"@ != "DROPPEDOFF"@) by {
                reveal_strlit("ENROUTE");
                reveal_strlit("DROPPEDOFF");
                assert("ENROUTE"@.len() != "DROPPEDOFF"@.len());
            }
            assert(ParcelStatus::spec_from_str_name("ENROUTE"@) == Some(ParcelStatus::Enroute));
        },
        ParcelStatus::Arrived => {
            assert("ARRIVED"@ != "NOTDROPPEDOFF"@) by {
                reveal_strlit("ARRIVED");
                reveal_strlit("NOTDROPPEDOFF");
                assert("ARRIVED"@.len() != "NOTDROPPEDOFF"@.len());
            }
            assert("ARRIVED"@ != "DROPPEDOFF"@) by {
                reveal_strlit("ARRIVED");
                reveal_strlit("DROPPEDOFF");
                assert("ARRIVED"@.len() != "DROPPEDOFF"@.len());
            }
            assert("ARRIVED"@ != "ENROUTE"@) by {
                reveal_strlit("ARRIVED");
                reveal_strlit("ENROUTE");
                assert("ARRIVED"@[0] != "ENROUTE"@[0]);
            }
            assert(ParcelStatus::spec_from_str_name("ARRIVED"@) == Some(ParcelStatus::Arrived));
        },
        ParcelStatus::Pickedup => {
            assert("PICKEDUP"@ != "NOTDROPPEDOFF"@) by {
                reveal_strlit("PICKEDUP");
                reveal_strlit("NOTDROPPEDOFF");
                assert("PICKEDUP"@.len() != "NOTDROPPEDOFF"@.len());
            }
            assert("PICKEDUP"@ != "DROPPEDOFF"@) by {
                reveal_strlit("PICKEDUP");
                reveal_strlit("DROPPEDOFF");
                assert("PICKEDUP"@.len() != "DROPPEDOFF"@.len());
            }
            assert("PICKEDUP"@ != "ENROUTE"@) by {
                reveal_strlit("PICKEDUP");
                reveal_strlit("ENROUTE");
                assert("PICKEDUP"@.len() != "ENROUTE"@.len());
            }
            assert("PICKEDUP"@ != "ARRIVED"@) by {
                reveal_strlit("PICKEDUP");
                reveal_strlit("ARRIVED");
                assert("PICKEDUP"@.len() != "ARRIVED"@.len());
            }
            assert(ParcelStatus::spec_from_str_name("PICKEDUP"@) == Some(ParcelStatus::Pickedup));
        },
        ParcelStatus::Complete => {
            assert("COMPLETE"@ != "NOTDROPPEDOFF"@) by {
                reveal_strlit("COMPLETE");
                reveal_strlit("NOTDROPPEDOFF");
                assert("COMPLETE"@.len() != "NOTDROPPEDOFF"@.len());
            }
            assert("COMPLETE"@ != "DROPPEDOFF"@) by {
                reveal_strlit("COMPLETE");
                reveal_strlit("DROPPEDOFF");
                assert("COMPLETE"@.len() != "DROPPEDOFF"@.len());
            }
            assert("COMPLETE"@ != "ENROUTE"@) by {
                reveal_strlit("COMPLETE");
                reveal_strlit("ENROUTE");
                assert("COMPLETE"@.len() != "ENROUTE"@.len());
            }
            assert("COMPLETE"@ != "ARRIVED"@) by {
                reveal_strlit("COMPLETE");
                reveal_strlit("ARRIVED");
                assert("COMPLETE"@.len() != "ARRIVED"@.len());
            }
            assert("COMPLETE"@ != "PICKEDUP"@) by {
                reveal_strlit("COMPLETE");
                reveal_strlit("PICKEDUP");
                assert("COMPLETE"@[0] != "PICKEDUP"@[0]);
            }
            assert(ParcelStatus::spec_from_str_name("COMPLETE"@) == Some(ParcelStatus::Complete));
        },
    }
}
/// A parcel.
#[derive(Clone, Debug, PartialEq, Eq, Default)]
pub struct Data {
    /// id of the user the parcel belongs to
    pub user_id: String,
    /// weight in grams
    pub weight_grams: u32,
    /// wire value of a [`ParcelStatus`]
    pub status: i32,
}

} // verus!
