//! Links between flight plans and the parcels they carry.

use vstd::prelude::*;

pub mod mock;

verus! {

/// Whether a flight picks up and/or delivers a parcel.
#[derive(Clone, Copy, Debug, PartialEq, Eq, Default)]
pub struct Data {
    /// the parcel is picked up on this flight
    pub acquire: bool,
    /// the parcel is delivered on this flight
    pub deliver: bool,
}

/// A link between a flight plan and a parcel, with its data.
#[derive(Clone, Debug, PartialEq, Eq, Default)]
pub struct RowData {
    /// id of the flight plan
    pub flight_plan_id: String,
    /// id of the parcel
    pub parcel_id: String,
    /// the parcel is picked up on this flight
    pub acquire: bool,
    /// the parcel is delivered on this flight
    pub deliver: bool,
}

} // verus!
