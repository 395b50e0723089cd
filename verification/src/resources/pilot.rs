//! Pilot records.

use vstd::prelude::*;

pub mod mock;

verus! {

/// A pilot.
#[derive(Clone, Debug, PartialEq, Eq, Default)]
pub struct Data {
    /// first name
    pub first_name: String,
    /// last name
    pub last_name: String,
}

} // verus!
