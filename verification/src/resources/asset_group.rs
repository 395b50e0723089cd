//! Asset group records.

use vstd::prelude::*;

pub mod mock;

verus! {

/// An asset group.
#[derive(Clone, Debug, PartialEq, Eq, Default)]
pub struct Data {
    /// group name
    pub name: String,
    /// description
    pub description: String,
    /// default schedule of the vertiports in the group
    pub default_vertiport_schedule: Option<String>,
    /// default schedule of the aircraft in the group
    pub default_aircraft_schedule: Option<String>,
}

} // verus!
