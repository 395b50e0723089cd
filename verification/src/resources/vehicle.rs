//! Vehicle (aircraft) records.

use vstd::prelude::*;
use crate::resources::Timestamp;

pub mod mock;

verus! {

/// A vehicle.
#[derive(Clone, Debug, PartialEq, Eq, Default)]
pub struct Data {
    /// id of the vehicle model
    pub vehicle_model_id: String,
    /// serial number
    pub serial_number: String,
    /// registration number
    pub registration_number: String,
    /// description
    pub description: Option<String>,
    /// id of the asset group the vehicle belongs to
    pub asset_group_id: Option<String>,
    /// availability schedule (iCalendar recurrence rules)
    pub schedule: Option<String>,
    /// id of the vertiport the vehicle was last seen at
    pub last_vertiport_id: Option<String>,
    /// time of the last maintenance
    pub last_maintenance: Option<Timestamp>,
    /// time of the next maintenance
    pub next_maintenance: Option<Timestamp>,
}

} // verus!
