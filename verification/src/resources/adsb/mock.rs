//! Sample ADS-B messages.

use vstd::prelude::*;
use crate::platform::random_in_range;
use crate::resources::now;
use super::Data;

verus! {

/// Creates a new [Data] object: a random address below `i16::MAX`, a random
/// message type below 22, the current time and a payload of 14 zero bytes.
pub fn get_data_obj() -> (r: Data)
    ensures
        0 <= r.icao_address < 0x7fff,
        0 <= r.message_type < 22,
        r.network_timestamp is Some,
        r.payload@ == Seq::new(14, |i: int| 0u8),
{
    let icao_address = random_in_range(0, 0x7fff);
    let message_type = random_in_range(0, 22);
    let network_timestamp = Some(now());
    let mut payload: Vec<u8> = Vec::new();
    let mut k: usize = 0;
    while k < 14
        invariant
            k <= 14,
            payload@ == Seq::new(k as nat, |i: int| 0u8),
        decreases 14 - k,
    {
        payload.push(0u8);
        k = k + 1;
        assert(payload@ =~= Seq::new(k as nat, |i: int| 0u8));
    }
    Data { icao_address, message_type, network_timestamp, payload }
}

} // verus!
