//! Sample parcel records.

use vstd::prelude::*;
use crate::platform::{is_uuid_v4_text, new_uuid_v4, random_in_range};
use super::{Data, ParcelStatus};

verus! {

/// Creates a new [Data] object for a new random user id, with a random
/// weight.
pub fn get_data_obj() -> (r: Data)
    ensures
        is_uuid_v4_text(r.user_id@),
        100 <= r.weight_grams < 10000,
        r.status == ParcelStatus::Enroute.spec_value(),
{
    let user_id = new_uuid_v4();
    get_data_obj_for_user_id(user_id.as_str())
}

/// Creates a new [Data] object for the given user id, with a random weight
/// between 100 and 10000 grams (exclusive), en route.
pub fn get_data_obj_for_user_id(user_id: &str) -> (r: Data)
    ensures
        r.user_id@ == user_id@,
        100 <= r.weight_grams < 10000,
        r.status == ParcelStatus::Enroute.spec_value(),
{
    let weight = random_in_range(100, 10000);
    Data {
        user_id: user_id.to_string(),
        weight_grams: weight as u32,
        status: ParcelStatus::Enroute.value(),
    }
}

} // verus!
