//! ADS-B messages received from aircraft.

use vstd::prelude::*;
use crate::resources::Timestamp;

pub mod mock;

verus! {

/// An ADS-B message.
#[derive(Clone, Debug, PartialEq, Eq, Default)]
pub struct Data {
    /// ICAO address of the sender
    pub icao_address: i64,
    /// message type
    pub message_type: i64,
    /// when the network received the message
    pub network_timestamp: Option<Timestamp>,
    /// raw message payload
    pub payload: Vec<u8>,
}

} // verus!
