//! Scanner records.

use vstd::prelude::*;
use vstd::std_specs::convert::{FromSpecImpl, TryFromSpecImpl};
use crate::text::text_eq;
use crate::UnknownEnumValue;

pub mod mock;

verus! {

/// Kind of scanner
#[derive(Clone, Copy, Debug, PartialEq, Eq, Structural, Hash, PartialOrd, Ord)]
pub enum ScannerType {
    /// MOBILE
    Mobile,
    /// LOCKER
    Locker,
    /// FACILITY
    Facility,
    /// UNDERBELLY
    Underbelly,
}

impl ScannerType {
    /// The wire value of the variant.
    pub open spec fn spec_value(self) -> i32 {
        match self {
            ScannerType::Mobile => 0,
            ScannerType::Locker => 1,
            ScannerType::Facility => 2,
            ScannerType::Underbelly => 3,
        }
    }

    /// The variant with the given wire value, if any.
    pub open spec fn spec_from_value(value: i32) -> Option<ScannerType> {
        if value == 0 {
            Some(ScannerType::Mobile)
        } else if value == 1 {
            Some(ScannerType::Locker)
        } else if value == 2 {
            Some(ScannerType::Facility)
        } else if value == 3 {
            Some(ScannerType::Underbelly)
        } else {
            None
        }
    }

    /// The field name used in the ProtoBuf definition.
    pub open spec fn spec_str_name(self) -> Seq<char> {
        match self {
            ScannerType::Mobile => "MOBILE"@,
            ScannerType::Locker => "LOCKER"@,
            ScannerType::Facility => "FACILITY"@,
            ScannerType::Underbelly => "UNDERBELLY"@,
        }
    }

    /// The variant whose ProtoBuf field name is `name`, if any.
    pub open spec fn spec_from_str_name(name: Seq<char>) -> Option<ScannerType> {
        if name == "MOBILE"@ {
            Some(ScannerType::Mobile)
        } else if name == "LOCKER"@ {
            Some(ScannerType::Locker)
        } else if name == "FACILITY"@ {
            Some(ScannerType::Facility)
        } else if name == "UNDERBELLY"@ {
            Some(ScannerType::Underbelly)
        } else {
            None
        }
    }

    /// The wire value of the variant.
    pub fn value(&self) -> (r: i32)
        ensures
            r == self.spec_value(),
    {
        match self {
            ScannerType::Mobile => 0,
            ScannerType::Locker => 1,
            ScannerType::Facility => 2,
            ScannerType::Underbelly => 3,
        }
    }

    /// The variant with the given wire value, if any.
    pub fn from_value(value: i32) -> (r: Option<ScannerType>)
        ensures
            r == ScannerType::spec_from_value(value),
    {
        if value == 0 {
            Some(ScannerType::Mobile)
        } else if value == 1 {
            Some(ScannerType::Locker)
        } else if value == 2 {
            Some(ScannerType::Facility)
        } else if value == 3 {
            Some(ScannerType::Underbelly)
        } else {
            None
        }
    }

    /// String value of the enum field names used in the ProtoBuf definition.
    pub fn as_str_name(&self) -> (r: &'static str)
        ensures
            r@ == self.spec_str_name(),
    {
        match self {
            ScannerType::Mobile => "MOBILE",
            ScannerType::Locker => "LOCKER",
            ScannerType::Facility => "FACILITY",
            ScannerType::Underbelly => "UNDERBELLY",
        }
    }

    /// Creates an enum from field names used in the ProtoBuf definition.
    pub fn from_str_name(value: &str) -> (r: Option<ScannerType>)
        ensures
            r == ScannerType::spec_from_str_name(value@),
    {
        if text_eq(value, "MOBILE") {
            Some(ScannerType::Mobile)
        } else if text_eq(value, "LOCKER") {
            Some(ScannerType::Locker)
        } else if text_eq(value, "FACILITY") {
            Some(ScannerType::Facility)
        } else if text_eq(value, "UNDERBELLY") {
            Some(ScannerType::Underbelly)
        } else {
            None
        }
    }
}

impl TryFrom<i32> for ScannerType {
    type Error = UnknownEnumValue;

    fn try_from(value: i32) -> (r: Result<ScannerType, UnknownEnumValue>) {
        match ScannerType::from_value(value) {
            Some(v) => Ok(v),
            None => Err(UnknownEnumValue(value)),
        }
    }
}

impl TryFromSpecImpl<i32> for ScannerType {
    open spec fn obeys_try_from_spec() -> bool {
        true
    }

    open spec fn try_from_spec(value: i32) -> Result<ScannerType, UnknownEnumValue> {
        match ScannerType::spec_from_value(value) {
            Some(v) => Ok(v),
            None => Err(UnknownEnumValue(value)),
        }
    }
}

impl From<ScannerType> for i32 {
    fn from(value: ScannerType) -> (r: i32) {
        value.value()
    }
}

impl FromSpecImpl<ScannerType> for i32 {
    open spec fn obeys_from_spec() -> bool {
        true
    }

    open spec fn from_spec(value: ScannerType) -> i32 {
        value.spec_value()
    }
}

/// Every ScannerType is found again from its ProtoBuf field name, and from its
/// wire value; and a wire value that names a variant is that variant's value.
pub proof fn lemma_scanner_type_names_and_values(op: ScannerType, value: i32)
    ensures
        ScannerType::spec_from_str_name(op.spec_str_name()) == Some(op),
        ScannerType::spec_from_value(op.spec_value()) == Some(op),
        ScannerType::spec_from_value(value) == Some(op) ==> op.spec_value() == value,
{
    match op {
        ScannerType::Mobile => {
            assert(ScannerType::spec_from_str_name("MOBILE"@) == Some(ScannerType::Mobile));
        },
        ScannerType::Locker => {
            assert("LOCKER"@ != "MOBILE"@) by {
                reveal_strlit("LOCKER");
                reveal_strlit("MOBILE");
                assert("LOCKER"@[0] != "MOBILE"@[0]);
            }
            assert(ScannerType::spec_from_str_name("LOCKER"@) == Some(ScannerType::Locker));
        },
        ScannerType::Facility => {
            assert("FACILITY"@ != "MOBILE"@) by {
                reveal_strlit("FACILITY");
                reveal_strlit("MOBILE");
                assert("FACILITY"@.len() != "MOBILE"@.len());
            }
            assert("FACILITY"@ != "LOCKER"@) by {
                reveal_strlit("FACILITY");
                reveal_strlit("LOCKER");
                assert("FACILITY"@.len() != "LOCKER"@.len());
            }
            assert(ScannerType::spec_from_str_name("FACILITY"@) == Some(ScannerType::Facility));
        },
        ScannerType::Underbelly => {
            assert("UNDERBELLY"@ != "MOBILE"@) by {
                reveal_strlit("UNDERBELLY");
                reveal_strlit("MOBILE");
                assert("UNDERBELLY"@.len() != "MOBILE"@.len());
            }
            assert("UNDERBELLY"@ != "LOCKER"@) by {
                reveal_strlit("UNDERBELLY");
                reveal_strlit("LOCKER");
                assert("UNDERBELLY"@.len() != "LOCKER"@.len());
            }
            assert("UNDERBELLY"@ != "FACILITY"@) by {
                reveal_strlit("UNDERBELLY");
                reveal_strlit("FACILITY");
                assert("UNDERBELLY"@.len() != "FACILITY"@.len());
            }
            assert(ScannerType::spec_from_str_name("UNDERBELLY"@) == Some(ScannerType::Underbelly));
        },
    }
}
/// Whether a scanner is in use
#[derive(Clone, Copy, Debug, PartialEq, Eq, Structural, Hash, PartialOrd, Ord)]
pub enum ScannerStatus {
    /// ACTIVE
    Active,
    /// DISABLED
    Disabled,
}

impl ScannerStatus {
    /// The wire value of the variant.
    pub open spec fn spec_value(self) -> i32 {
        match self {
            ScannerStatus::Active => 0,
            ScannerStatus::Disabled => 1,
        }
    }

    /// The variant with the given wire value, if any.
    pub open spec fn spec_from_value(value: i32) -> Option<ScannerStatus> {
        if value == 0 {
            Some(ScannerStatus::Active)
        } else if value == 1 {
            Some(ScannerStatus::Disabled)
        } else {
            None
        }
    }

    /// The field name used in the ProtoBuf definition.
    pub open spec fn spec_str_name(self) -> Seq<char> {
        match self {
            ScannerStatus::Active => "ACTIVE"@,
            ScannerStatus::Disabled => "DISABLED"@,
        }
    }

    /// The variant whose ProtoBuf field name is `name`, if any.
    pub open spec fn spec_from_str_name(name: Seq<char>) -> Option<ScannerStatus> {
        if name == "ACTIVE"@ {
            Some(ScannerStatus::Active)
        } else if name == "DISABLED"@ {
            Some(ScannerStatus::Disabled)
        } else {
            None
        }
    }

    /// The wire value of the variant.
    pub fn value(&self) -> (r: i32)
        ensures
            r == self.spec_value(),
    {
        match self {
            ScannerStatus::Active => 0,
            ScannerStatus::Disabled => 1,
        }
    }

    /// The variant with the given wire value, if any.
    pub fn from_value(value: i32) -> (r: Option<ScannerStatus>)
        ensures
            r == ScannerStatus::spec_from_value(value),
    {
        if value == 0 {
            Some(ScannerStatus::Active)
        } else if value == 1 {
            Some(ScannerStatus::Disabled)
        } else {
            None
        }
    }

    /// String value of the enum field names used in the ProtoBuf definition.
    pub fn as_str_name(&self) -> (r: &'static str)
        ensures
            r@ == self.spec_str_name(),
    {
        match self {
            ScannerStatus::Active => "ACTIVE",
            ScannerStatus::Disabled => "DISABLED",
        }
    }

    /// Creates an enum from field names used in the ProtoBuf definition.
    pub fn from_str_name(value: &str) -> (r: Option<ScannerStatus>)
        ensures
            r == ScannerStatus::spec_from_str_name(value@),
    {
        if text_eq(value, "ACTIVE") {
            Some(ScannerStatus::Active)
        } else if text_eq(value, "DISABLED") {
            Some(ScannerStatus::Disabled)
        } else {
            None
        }
    }
}

impl TryFrom<i32> for ScannerStatus {
    type Error = UnknownEnumValue;

    fn try_from(value: i32) -> (r: Result<ScannerStatus, UnknownEnumValue>) {
        match ScannerStatus::from_value(value) {
            Some(v) => Ok(v),
            None => Err(UnknownEnumValue(value)),
        }
    }
}

impl TryFromSpecImpl<i32> for ScannerStatus {
    open spec fn obeys_try_from_spec() -> bool {
        true
    }

    open spec fn try_from_spec(value: i32) -> Result<ScannerStatus, UnknownEnumValue> {
        match ScannerStatus::spec_from_value(value) {
            Some(v) => Ok(v),
            None => Err(UnknownEnumValue(value)),
        }
    }
}

impl From<ScannerStatus> for i32 {
    fn from(value: ScannerStatus) -> (r: i32) {
        value.value()
    }
}

impl FromSpecImpl<ScannerStatus> for i32 {
    open spec fn obeys_from_spec() -> bool {
        true
    }

    open spec fn from_spec(value: ScannerStatus) -> i32 {
        value.spec_value()
    }
}

/// Every ScannerStatus is found again from its ProtoBuf field name, and from its
/// wire value; and a wire value that names a variant is that variant's value.
pub proof fn lemma_scanner_status_names_and_values(op: ScannerStatus, value: i32)
    ensures
        ScannerStatus::spec_from_str_name(op.spec_str_name()) == Some(op),
        ScannerStatus::spec_from_value(op.spec_value()) == Some(op),
        ScannerStatus::spec_from_value(value) == Some(op) ==> op.spec_value() == value,
{
    match op {
        ScannerStatus::Active => {
            assert(ScannerStatus::spec_from_str_name("ACTIVE"@) == Some(ScannerStatus::Active));
        },
        ScannerStatus::Disabled => {
            assert("DISABLED"@ != "ACTIVE"@) by {
                reveal_strlit("DISABLED");
                reveal_strlit("ACTIVE");
                assert("DISABLED"@.len() != "ACTIVE"@.len());
            }
            assert(ScannerStatus::spec_from_str_name("DISABLED"@) == Some(ScannerStatus::Disabled));
        },
    }
}
/// A parcel scanner.
#[derive(Clone, Debug, PartialEq, Eq, Default)]
pub struct Data {
    /// id of the organization that owns the scanner
    pub organization_id: String,
    /// wire value of a [`ScannerType`]
    pub scanner_type: i32,
    /// wire value of a [`ScannerStatus`]
    pub scanner_status: i32,
}

} // verus!
