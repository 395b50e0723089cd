//! Vertipads: the landing pads of a vertiport.

use vstd::prelude::*;
use crate::resources::Timestamp;

pub mod mock;

verus! {

/// A vertipad; its geographic location is kept beside it, as coordinates
/// are not held here.
#[derive(Clone, Debug, PartialEq, Eq, Default)]
pub struct Data {
    /// id of the vertiport the pad belongs to
    pub vertiport_id: String,
    /// name
    pub name: String,
    /// whether the pad is in use
    pub enabled: bool,
    /// whether an aircraft occupies the pad
    pub occupied: bool,
    /// availability schedule (iCalendar recurrence rules)
    pub schedule: Option<String>,
    /// when the record was created
    pub created_at: Option<Timestamp>,
    /// when the record was last updated
    pub updated_at: Option<Timestamp>,
}

} // verus!
