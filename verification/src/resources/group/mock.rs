//! Sample group records.

use vstd::prelude::*;
use super::{Data, GroupType};

verus! {

/// Creates a new [Data] object with fixed sample values and no parent group.
pub fn get_data_obj() -> (r: Data)
    ensures
        r.name@ == "Europe"@,
        r.group_type == GroupType::Display.spec_value(),
        r.description@ == "Europe managed group."@,
        r.parent_group_id is None,
{
    Data {
        name: "Europe".to_string(),
        group_type: GroupType::Display.into(),
        description: "Europe managed group.".to_string(),
        parent_group_id: None,
    }
}

/// Creates a new [Data] object with fixed sample values, using the
/// provided parent group id.
pub fn get_data_obj_for_parent_group(parent_group_id: &str) -> (r: Data)
    ensures
        r.name@ == "United Kingdom"@,
        r.group_type == GroupType::Display.spec_value(),
        r.description@ == "United Kingdom specific group."@,
        r.parent_group_id matches Some(p) && p@ == parent_group_id@,
{
    Data {
        name: "United Kingdom".to_string(),
        group_type: GroupType::Display.into(),
        description: "United Kingdom specific group.".to_string(),
        parent_group_id: Some(parent_group_id.to_string()),
    }
}

} // verus!
