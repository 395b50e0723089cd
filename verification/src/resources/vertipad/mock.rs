//! Sample vertipad records.

use vstd::prelude::*;
use crate::platform::{is_uuid_v4_text, new_uuid_v4};
use crate::resources::vehicle::mock::{cal_workdays_8am_6pm, is_numbered, random_numbered};
use crate::resources::{current_hour, random_time, sampled_time, Timestamp};
use super::Data;

verus! {

/// The relations every sample vertipad keeps: enabled and free, named
/// `Demo vertipad` with a number, open on workdays, created on a
/// five-minute mark within the thousand days before an hour `now`, and not
/// updated since.
pub open spec fn vertipad_sample_ok(r: Data, now: int) -> bool {
    &&& is_numbered(r.name@, "Demo vertipad "@)
    &&& r.enabled
    &&& !r.occupied
    &&& r.schedule matches Some(s) && s@ == cal_workdays_8am_6pm()
    &&& r.created_at matches Some(t) && t.nanos == 0 && sampled_time(t.seconds as int, now, -1000, 0)
    &&& r.updated_at == r.created_at
}

/// Creates a new [Data] object for a new random vertiport id, created
/// within the thousand days before the current hour.
pub fn get_data_obj() -> (r: Data)
    ensures
        is_uuid_v4_text(r.vertiport_id@),
        exists|now: int| now % 3600 == 0 && #[trigger] vertipad_sample_ok(r, now),
{
    let vertiport_id = new_uuid_v4();
    get_data_obj_for_vertiport(vertiport_id.as_str())
}

/// Creates a new [Data] object for the vertiport with the given id, created
/// within the thousand days before the current hour.
pub fn get_data_obj_for_vertiport(vertiport_id: &str) -> (r: Data)
    ensures
        r.vertiport_id@ == vertiport_id@,
        exists|now: int| now % 3600 == 0 && #[trigger] vertipad_sample_ok(r, now),
{
    let now = current_hour();
    let r = get_data_obj_for_vertiport_at(vertiport_id, now);
    assert(vertipad_sample_ok(r, now as int));
    r
}

/// Creates a new [Data] object for the vertiport with the given id, created
/// on a five-minute mark within the thousand days before the hour `now`.
pub fn get_data_obj_for_vertiport_at(vertiport_id: &str, now: i64) -> (r: Data)
    requires
        now % 3600 == 0,
        -9_000_000_003_600 <= now <= 9_000_000_000_000,
    ensures
        r.vertiport_id@ == vertiport_id@,
        vertipad_sample_ok(r, now as int),
{
    let created = random_time(now, -1000, 0);
    let created_at = Some(Timestamp { seconds: created, nanos: 0 });
    Data {
        vertiport_id: vertiport_id.to_string(),
        name: random_numbered("Demo vertipad "),
        enabled: true,
        occupied: false,
        schedule: Some(
            "DTSTART:20221020T180000Z;DURATION:PT14H\nRRULE:FREQ=WEEKLY;BYDAY=MO,TU,WE,TH,FR\nDTSTART:20221022T000000Z;DURATION:PT24H\nRRULE:FREQ=WEEKLY;BYDAY=SA,SU".to_string(),
        ),
        created_at,
        updated_at: created_at,
    }
}

} // verus!
