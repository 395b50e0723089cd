//! Sample itinerary records.

use vstd::prelude::*;
use crate::platform::{is_uuid_v4_text, new_uuid_v4};
use super::{Data, ItineraryStatus};

verus! {

/// Creates a new [Data] object for a new random user id, in the active
/// state.
pub fn get_data_obj() -> (r: Data)
    ensures
        is_uuid_v4_text(r.user_id@),
        r.status == ItineraryStatus::Active.spec_value(),
{
    Data { user_id: new_uuid_v4(), status: ItineraryStatus::Active.value() }
}

} // verus!
