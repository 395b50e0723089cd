//! Sample parcel scan records.

use vstd::prelude::*;
use crate::platform::{is_uuid_v4_text, new_uuid_v4};
use crate::resources::now;
use super::Data;

verus! {

/// Creates a new [Data] object for a new random parcel and scanner, made
/// now.
pub fn get_data_obj() -> (r: Data)
    ensures
        is_uuid_v4_text(r.parcel_id@),
        is_uuid_v4_text(r.scanner_id@),
        r.created_at matches Some(t) && 0 <= t.nanos < 2_000_000_000,
{
    let parcel_id = new_uuid_v4();
    let scanner_id = new_uuid_v4();
    get_data_obj_for_parcel_scan_ids(parcel_id.as_str(), scanner_id.as_str())
}

/// Creates a new [Data] object for the given parcel and scanner, made now
/// (the clock's reading).
pub fn get_data_obj_for_parcel_scan_ids(parcel_id: &str, scan_id: &str) -> (r: Data)
    ensures
        r.parcel_id@ == parcel_id@,
        r.scanner_id@ == scan_id@,
        r.created_at matches Some(t) && 0 <= t.nanos < 2_000_000_000,
{
    Data {
        parcel_id: parcel_id.to_string(),
        scanner_id: scan_id.to_string(),
        created_at: Some(now()),
    }
}

} // verus!
