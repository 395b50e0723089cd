//! Group records.

use vstd::prelude::*;
use vstd::std_specs::convert::{FromSpecImpl, TryFromSpecImpl};
use crate::text::text_eq;
use crate::UnknownEnumValue;

pub mod mock;

verus! {

/// What a group is used for
#[derive(Clone, Copy, Debug, PartialEq, Eq, Structural, Hash, PartialOrd, Ord)]
pub enum GroupType {
    /// DISPLAY
    Display,
    /// ACL
    Acl,
    /// SETTINGS
    Settings,
}

impl GroupType {
    /// The wire value of the variant.
    pub open spec fn spec_value(self) -> i32 {
        match self {
            GroupType::Display => 0,
            GroupType::Acl => 1,
            GroupType::Settings => 2,
        }
    }

    /// The variant with the given wire value, if any.
    pub open spec fn spec_from_value(value: i32) -> Option<GroupType> {
        if value == 0 {
            Some(GroupType::Display)
        } else if value == 1 {
            Some(GroupType::Acl)
        } else if value == 2 {
            Some(GroupType::Settings)
        } else {
            None
        }
    }

    /// The field name used in the ProtoBuf definition.
    pub open spec fn spec_str_name(self) -> Seq<char> {
        match self {
            GroupType::Display => "DISPLAY"@,
            GroupType::Acl => "ACL"@,
            GroupType::Settings => "SETTINGS"@,
        }
    }

    /// The variant whose ProtoBuf field name is `name`, if any.
    pub open spec fn spec_from_str_name(name: Seq<char>) -> Option<GroupType> {
        if name == "DISPLAY"@ {
            Some(GroupType::Display)
        } else if name == "ACL"@ {
            Some(GroupType::Acl)
        } else if name == "SETTINGS"@ {
            Some(GroupType::Settings)
        } else {
            None
        }
    }

    /// The wire value of the variant.
    pub fn value(&self) -> (r: i32)
        ensures
            r == self.spec_value(),
    {
        match self {
            GroupType::Display => 0,
            GroupType::Acl => 1,
            GroupType::Settings => 2,
        }
    }

    /// The variant with the given wire value, if any.
    pub fn from_value(value: i32) -> (r: Option<GroupType>)
        ensures
            r == GroupType::spec_from_value(value),
    {
        if value == 0 {
            Some(GroupType::Display)
        } else if value == 1 {
            Some(GroupType::Acl)
        } else if value == 2 {
            Some(GroupType::Settings)
        } else {
            None
        }
    }

    /// String value of the enum field names used in the ProtoBuf definition.
    pub fn as_str_name(&self) -> (r: &'static str)
        ensures
            r@ == self.spec_str_name(),
    {
        match self {
            GroupType::Display => "DISPLAY",
            GroupType::Acl => "ACL",
            GroupType::Settings => "SETTINGS",
        }
    }

    /// Creates an enum from field names used in the ProtoBuf definition.
    pub fn from_str_name(value: &str) -> (r: Option<GroupType>)
        ensures
            r == GroupType::spec_from_str_name(value@),
    {
        if text_eq(value, "DISPLAY") {
            Some(GroupType::Display)
        } else if text_eq(value, "ACL") {
            Some(GroupType::Acl)
        } else if text_eq(value, "SETTINGS") {
            Some(GroupType::Settings)
        } else {
            None
        }
    }
}

impl TryFrom<i32> for GroupType {
    type Error = UnknownEnumValue;

    fn try_from(value: i32) -> (r: Result<GroupType, UnknownEnumValue>) {
        match GroupType::from_value(value) {
            Some(v) => Ok(v),
            None => Err(UnknownEnumValue(value)),
        }
    }
}

impl TryFromSpecImpl<i32> for GroupType {
    open spec fn obeys_try_from_spec() -> bool {
        true
    }

    open spec fn try_from_spec(value: i32) -> Result<GroupType, UnknownEnumValue> {
        match GroupType::spec_from_value(value) {
            Some(v) => Ok(v),
            None => Err(UnknownEnumValue(value)),
        }
    }
}

impl From<GroupType> for i32 {
    fn from(value: GroupType) -> (r: i32) {
        value.value()
    }
}

impl FromSpecImpl<GroupType> for i32 {
    open spec fn obeys_from_spec() -> bool {
        true
    }

    open spec fn from_spec(value: GroupType) -> i32 {
        value.spec_value()
    }
}

/// Every GroupType is found again from its ProtoBuf field name, and from its
/// wire value; and a wire value that names a variant is that variant's value.
pub proof fn lemma_group_type_names_and_values(op: GroupType, value: i32)
    ensures
        GroupType::spec_from_str_name(op.spec_str_name()) == Some(op),
        GroupType::spec_from_value(op.spec_value()) == Some(op),
        GroupType::spec_from_value(value) == Some(op) ==> op.spec_value() == value,
{
    match op {
        GroupType::Display => {
            assert(GroupType::spec_from_str_name("DISPLAY"@) == Some(GroupType::Display));
        },
        GroupType::Acl => {
            assert("ACL"@ != "DISPLAY"@) by {
                reveal_strlit("ACL");
                reveal_strlit("DISPLAY");
                assert("ACL"@.len() != "DISPLAY"@.len());
            }
            assert(GroupType::spec_from_str_name("ACL"@) == Some(GroupType::Acl));
        },
        GroupType::Settings => {
            assert("SETTINGS"@ != "DISPLAY"@) by {
                reveal_strlit("SETTINGS");
                reveal_strlit("DISPLAY");
                assert("SETTINGS"@.len() != "DISPLAY"@.len());
            }
            assert("SETTINGS"@ != "ACL"@) by {
                reveal_strlit("SETTINGS");
                reveal_strlit("ACL");
                assert("SETTINGS"@.len() != "ACL"@.len());
            }
            assert(GroupType::spec_from_str_name("SETTINGS"@) == Some(GroupType::Settings));
        },
    }
}
/// A group.
#[derive(Clone, Debug, PartialEq, Eq, Default)]
pub struct Data {
    /// group name
    pub name: String,
    /// wire value of a [`GroupType`]
    pub group_type: i32,
    /// description
    pub description: String,
    /// id of the parent group, if any
    pub parent_group_id: Option<String>,
}

} // verus!
