//! Sample vehicle records.

use vstd::prelude::*;
use crate::platform::{is_uuid_v4_text, local_now, new_uuid_v4, random_in_range};
use crate::resources::{
    lemma_sampled_time, random_time, sampled_time, start_of_hour, Timestamp,
};
use crate::text::{join_text, decimal, pad_left, zero_padded_decimal};
use super::Data;

verus! {

/// Availability on workdays from 08:00 to 18:00 (UTC+10) and all day on
/// weekends.
pub open spec fn cal_workdays_8am_6pm() -> Seq<char> {
    "DTSTART:20221020T180000Z;DURATION:PT14H\nRRULE:FREQ=WEEKLY;BYDAY=MO,TU,WE,TH,FR\nDTSTART:20221022T000000Z;DURATION:PT24H\nRRULE:FREQ=WEEKLY;BYDAY=SA,SU"@
}

/// `s` is `prefix` followed by a number below ten million, zero-padded to
/// eight digits.
pub open spec fn is_numbered(s: Seq<char>, prefix: Seq<char>) -> bool {
    exists|n: nat| n < 10_000_000 && s == prefix + pad_left(decimal(n), 8, '0')
}

/// `prefix` followed by a random number below ten million, zero-padded to
/// eight digits.
pub(crate) fn random_numbered(prefix: &str) -> (r: String)
    ensures
        is_numbered(r@, prefix@),
{
    let n = random_in_range(0, 10_000_000);
    let digits = zero_padded_decimal(n as u64, 8);
    let r = join_text(prefix, digits.as_str());
    assert(r@ == prefix@ + pad_left(decimal(n as nat), 8, '0'));
    r
}

/// The relations every sample vehicle keeps, for the hour `now` its
/// maintenance dates are drawn around: named with numbers, described, open
/// on workdays, in no asset group and at no vertiport; last maintained on a
/// five-minute mark within the thousand days before `now`, next maintained
/// on one within the thousand days from `now`.
pub open spec fn vehicle_sample_ok(r: Data, now: int) -> bool {
    &&& is_numbered(r.serial_number@, "S-MOCK-"@)
    &&& is_numbered(r.registration_number@, "N-DEMO-"@)
    &&& r.description matches Some(d) && d@ == "Demo vehicle filled with Mock data"@
    &&& r.asset_group_id is None
    &&& r.schedule matches Some(s) && s@ == cal_workdays_8am_6pm()
    &&& r.last_vertiport_id is None
    &&& r.last_maintenance matches Some(t) && t.nanos == 0 && sampled_time(
        t.seconds as int,
        now,
        -1000,
        0,
    )
    &&& r.next_maintenance matches Some(t) && t.nanos == 0 && sampled_time(
        t.seconds as int,
        now,
        0,
        1000,
    )
}

/// Creates a new [Data] object with maintenance dates drawn around the hour
/// `now`: the last up to a thousand days before it, the next up to a
/// thousand days after it, both on a five-minute mark.
pub fn get_data_obj_at(now: i64) -> (r: Data)
    requires
        now % 3600 == 0,
        -9_000_000_100_000 <= now <= 9_000_000_100_000,
    ensures
        is_uuid_v4_text(r.vehicle_model_id@),
        vehicle_sample_ok(r, now as int),
        r.last_maintenance matches Some(t) && t.seconds % 300 == 0,
        r.next_maintenance matches Some(t) && t.seconds % 300 == 0,
        r.last_maintenance->0.seconds < r.next_maintenance->0.seconds,
{
    let last = random_time(now, -1000, 0);
    let next = random_time(now, 0, 1000);
    proof {
        assert(sampled_time(last as int, now as int, -1000, 0));
        assert(sampled_time(next as int, now as int, 0, 1000));
        lemma_sampled_time(last as int, now as int, -1000, 0);
        lemma_sampled_time(next as int, now as int, 0, 1000);
    }
    let last_maintenance = Some(Timestamp { seconds: last, nanos: 0 });
    let next_maintenance = Some(Timestamp { seconds: next, nanos: 0 });

    let vehicle_model_id = new_uuid_v4();

    Data {
        vehicle_model_id,
        serial_number: random_numbered("S-MOCK-"),
        registration_number: random_numbered("N-DEMO-"),
        description: Some("Demo vehicle filled with Mock data".to_string()),
        asset_group_id: None,
        schedule: Some(
            "DTSTART:20221020T180000Z;DURATION:PT14H\nRRULE:FREQ=WEEKLY;BYDAY=MO,TU,WE,TH,FR\nDTSTART:20221022T000000Z;DURATION:PT24H\nRRULE:FREQ=WEEKLY;BYDAY=SA,SU".to_string(),
        ),
        last_vertiport_id: None,
        last_maintenance,
        next_maintenance,
    }
}

/// Creates a new [Data] object with fields set with random data: the last
/// maintenance up to a thousand days before the current local hour, the
/// next one up to a thousand days after it, both on a five-minute mark.
pub fn get_data_obj() -> (r: Data)
    ensures
        is_uuid_v4_text(r.vehicle_model_id@),
        r.last_maintenance->0.seconds < r.next_maintenance->0.seconds,
        exists|now: int| now % 3600 == 0 && #[trigger] vehicle_sample_ok(r, now),
{
    let (utc, offset) = local_now();
    // the local wall-clock hour, read as a UTC time
    let now = start_of_hour(utc + offset as i64);
    let r = get_data_obj_at(now);
    assert(vehicle_sample_ok(r, now as int));
    r
}

} // verus!
