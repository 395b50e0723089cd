//! Parcel scans: a scanner reading a parcel.

use vstd::prelude::*;
use crate::resources::Timestamp;

pub mod mock;

verus! {

/// A parcel scan; its geographic location is kept beside it, as
/// coordinates are not held here.
#[derive(Clone, Debug, PartialEq, Eq, Default)]
pub struct Data {
    /// id of the scanned parcel
    pub parcel_id: String,
    /// id of the scanner
    pub scanner_id: String,
    /// when the scan was made
    pub created_at: Option<Timestamp>,
}

} // verus!
