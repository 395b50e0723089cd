//! Sample vertiport records, placed at the demo locations.

use vstd::prelude::*;
use crate::platform::random_in_range;
use crate::resources::vehicle::mock::{cal_workdays_8am_6pm, is_numbered, random_numbered};
use crate::resources::{current_hour, random_time, sampled_time, Timestamp};
use super::{Data, Location};

verus! {

/// A sample vertiport: its record, and the demo location whose outline it
/// has.
#[derive(Clone, Debug, PartialEq, Eq)]
pub struct VertiportSample {
    /// the record
    pub data: Data,
    /// where the vertiport lies
    pub location: Location,
}

/// The relations every sample vertiport record keeps: named `Demo
/// vertiport` with a number, open during workdays, created on a five-minute
/// mark within the thousand days before an hour `now`, and not updated
/// since.
pub open spec fn vertiport_sample_ok(r: Data, now: int) -> bool {
    &&& is_numbered(r.name@, "Demo vertiport "@)
    &&& r.description@ == "Open during workdays and work hours only"@
    &&& r.schedule matches Some(s) && s@ == cal_workdays_8am_6pm()
    &&& r.created_at matches Some(t) && t.nanos == 0 && sampled_time(t.seconds as int, now, -1000, 0)
    &&& r.updated_at == r.created_at
}

/// Creates a new sample vertiport at a random demo location, created on a
/// five-minute mark within the thousand days before the hour `now`.
pub fn get_data_obj_at(now: i64) -> (r: VertiportSample)
    requires
        now % 3600 == 0,
        -9_000_000_003_600 <= now <= 9_000_000_000_000,
    ensures
        vertiport_sample_ok(r.data, now as int),
{
    let created = random_time(now, -1000, 0);
    let created_at = Some(Timestamp { seconds: created, nanos: 0 });
    // Pick a random location from the list of demo locations
    let position = random_in_range(0, 6);
    let location = Location::from_position(position as u32);
    let data = Data {
        name: random_numbered("Demo vertiport "),
        description: "Open during workdays and work hours only".to_string(),
        schedule: Some(
            "DTSTART:20221020T180000Z;DURATION:PT14H\nRRULE:FREQ=WEEKLY;BYDAY=MO,TU,WE,TH,FR\nDTSTART:20221022T000000Z;DURATION:PT24H\nRRULE:FREQ=WEEKLY;BYDAY=SA,SU".to_string(),
        ),
        created_at,
        updated_at: created_at,
    };
    VertiportSample { data, location }
}

/// Creates a new sample vertiport at a random demo location, created within
/// the thousand days before the current hour.
pub fn get_data_obj() -> (r: VertiportSample)
    ensures
        exists|now: int| now % 3600 == 0 && #[trigger] vertiport_sample_ok(r.data, now),
{
    let now = current_hour();
    let r = get_data_obj_at(now);
    assert(vertiport_sample_ok(r.data, now as int));
    r
}

/// Creates a new sample vertiport at the given demo location, created
/// within the thousand days before the current hour.
pub fn get_data_obj_for_location(location: Location) -> (r: VertiportSample)
    ensures
        r.location == location,
        exists|now: int| now % 3600 == 0 && #[trigger] vertiport_sample_ok(r.data, now),
{
    let sample = get_data_obj();
    VertiportSample { data: sample.data, location }
}

} // verus!
