//! Sample flight plans, with dates relative to the current hour.

use vstd::prelude::*;
use crate::platform::{is_uuid_v4_text, new_uuid_v4, random_in_range};
use crate::resources::{current_hour, is_five_minute_mark, random_time, shifted, Timestamp};
use super::{Data, FlightPriority, FlightStatus};

verus! {

/// A time in whole seconds, as a [`Timestamp`].
pub open spec fn at(seconds: int) -> Timestamp {
    Timestamp { seconds: seconds as i64, nanos: 0 }
}

/// The status of a flight departing at `departure` and arriving at
/// `arrival`, seen at `now`: finished once arrived, in flight once
/// departed, boarding within ten minutes of departure, ready within the two
/// hours before departure (whole hours until departure at most one), a
/// draft before that.
pub open spec fn status_at(departure: int, arrival: int, now: int) -> FlightStatus {
    if arrival < now {
        FlightStatus::Finished
    } else if departure < now {
        FlightStatus::InFlight
    } else if departure - now <= 600 {
        FlightStatus::Boarding
    } else if departure - now < 7200 {
        FlightStatus::Ready
    } else {
        FlightStatus::Draft
    }
}

/// A flight is released (approved) once it is less than two hours before
/// its departure, or departed.
pub open spec fn released_at(departure: int, now: int) -> bool {
    departure - now < 7200
}

/// What a flight plan's state fields are at `now`, for the given departure
/// and arrival: status, release approval, actual departure, actual
/// arrival, and who approved.
pub open spec fn state_values_ok(
    departure: int,
    arrival: int,
    now: int,
    r: (FlightStatus, Option<Timestamp>, Option<Timestamp>, Option<Timestamp>, Option<String>),
) -> bool {
    let (status, release, actual_departure, actual_arrival, approved_by) = r;
    &&& status == status_at(departure, arrival, now)
    // departure was in the past: actual departure within six minutes of
    // it, released between twelve hours and one minute before it
    &&& (departure < now ==> {
        &&& (actual_departure matches Some(t) && t.nanos == 0 && departure - 360 <= t.seconds
            < departure + 360)
        &&& (release matches Some(t) && t.nanos == 0 && departure - 43200 < t.seconds
            <= departure - 60)
    })
    &&& (departure >= now ==> actual_departure is None)
    // departure within two hours: released between twelve and two hours
    // before now
    &&& (departure >= now && released_at(departure, now) ==> (release matches Some(t) && t.nanos
        == 0 && now - 11 * 3600 <= t.seconds <= now - 2 * 3600))
    &&& (!released_at(departure, now) ==> release is None)
    // whoever released the flight is named
    &&& (release is Some <==> approved_by is Some)
    &&& (approved_by matches Some(a) ==> is_uuid_v4_text(a@))
    // arrival was in the past: actual arrival within six minutes of it
    &&& (arrival < now ==> (actual_arrival matches Some(t) && t.nanos == 0 && arrival - 360
        <= t.seconds < arrival + 360))
    &&& (arrival >= now ==> actual_arrival is None)
}

/// The status, release approval, actual departure, actual arrival and
/// approver of a flight departing at `departure` and arriving at
/// `arrival`, as seen at `now` (all in whole seconds); the actual times
/// and approval times are drawn at random around the scheduled ones.
pub fn _data_values_by_departure_and_arrival_date(departure: i64, arrival: i64, now: i64) -> (r: (
    FlightStatus,
    Option<Timestamp>,
    Option<Timestamp>,
    Option<Timestamp>,
    Option<String>,
))
    requires
        -9_200_000_000_000 <= departure <= 9_200_000_000_000,
        -9_200_000_000_000 <= arrival <= 9_200_000_000_000,
        -9_200_000_000_000 <= now <= 9_200_000_000_000,
    ensures
        state_values_ok(departure as int, arrival as int, now as int, r),
{
    let mut flight_status = FlightStatus::Draft;
    let mut actual_departure_time: Option<Timestamp> = None;
    let mut actual_arrival_time: Option<Timestamp> = None;
    let mut flight_release_approval: Option<Timestamp> = None;
    let mut approved_by: Option<String> = None;
    if departure < now {
        // we're at least in flight
        flight_status = FlightStatus::InFlight;
        // departure was in the past, set actual departure +/- 6 min
        actual_departure_time = Some(
            Timestamp { seconds: departure + random_in_range(-360, 360), nanos: 0 },
        );
        // set release approval 12h to 1 min before departure
        flight_release_approval = Some(
            Timestamp { seconds: departure - random_in_range(60, 43200), nanos: 0 },
        );
        // if we have an approval date, someone must have approved it
        approved_by = Some(new_uuid_v4());
    } else if departure - now <= 600 {
        // we're 10 mins from departure, should be boarding
        flight_status = FlightStatus::Boarding;
        // expect a sign off at least 2 hours before now
        flight_release_approval = Some(
            Timestamp { seconds: now - random_in_range(2, 12) * 3600, nanos: 0 },
        );
        approved_by = Some(new_uuid_v4());
    } else if (departure - now) / 3600 <= 1 {
        // we have an approval, so we're at least ready
        flight_status = FlightStatus::Ready;
        flight_release_approval = Some(
            Timestamp { seconds: now - random_in_range(2, 12) * 3600, nanos: 0 },
        );
        approved_by = Some(new_uuid_v4());
    }
    if arrival < now {
        // arrival was in the past, set actual arrival +/- 6 min
        actual_arrival_time = Some(
            Timestamp { seconds: arrival + random_in_range(-360, 360), nanos: 0 },
        );
        // we've arrived
        flight_status = FlightStatus::Finished;
    }
    (
        flight_status,
        flight_release_approval,
        actual_departure_time,
        actual_arrival_time,
        approved_by,
    )
}

/// A sample flight plan: its record, and the integers from which the
/// floating-point fields of the record are computed (the path runs
/// straight north over `flight_distance_meters`; the cruise speed is
/// `avg_speed` and the hover speed a third of it).
#[derive(Clone, Debug, PartialEq, Eq)]
pub struct FlightPlanSample {
    /// the record
    pub data: Data,
    /// length of the flight path in meters
    pub flight_distance_meters: u32,
    /// average speed in km/h
    pub avg_speed: i64,
}

/// The whole hours a flight of `distance` meters takes at `speed` km/h.
pub open spec fn flight_hours(distance: int, speed: int) -> int {
    distance / 1000 / speed
}

/// The relations that every sample flight plan keeps between its fields,
/// for a departure between `days_min` and `days_max` days after `now`.
pub open spec fn sample_ok(s: FlightPlanSample, now: int, days_min: int, days_max: int) -> bool {
    let d = s.data;
    let departure = d.origin_timeslot_start->0.seconds as int;
    let arrival = d.target_timeslot_end->0.seconds as int;
    &&& 500 <= s.flight_distance_meters < 200000
    &&& 95 <= s.avg_speed < 105
    &&& d.session_id@ == "AETH00001"@
    &&& is_uuid_v4_text(d.pilot_id@)
    &&& is_uuid_v4_text(d.vehicle_id@)
    &&& d.weather_conditions matches Some(w) && w@ == "cold and windy"@
    &&& is_uuid_v4_text(d.origin_vertiport_id@)
    &&& is_uuid_v4_text(d.origin_vertipad_id@)
    &&& is_uuid_v4_text(d.target_vertiport_id@)
    &&& is_uuid_v4_text(d.target_vertipad_id@)
    // departure on a five-minute mark within the requested days
    &&& d.origin_timeslot_start matches Some(t) && t.nanos == 0
    &&& exists|days: int, hours: int, minutes: int|
        days_min <= days < days_max && 0 <= hours < 24 && is_five_minute_mark(minutes)
            && departure == shifted(now, days, hours, minutes)
    // the flight takes the whole hours its distance takes at its speed
    &&& d.target_timeslot_end matches Some(t) && t.nanos == 0
    &&& arrival == departure + 3600 * flight_hours(
        s.flight_distance_meters as int,
        s.avg_speed as int,
    )
    // one-minute timeslots at both ends
    &&& d.origin_timeslot_end == Some(at(departure + 60))
    &&& d.target_timeslot_start == Some(at(arrival - 60))
    // submitted, and acknowledged, 1 to 89 days before departure
    &&& d.flight_plan_submitted matches Some(t) && t.nanos == 0 && departure - 89 * 86400
        <= t.seconds <= departure - 86400 && (departure - t.seconds) % 86400 == 0
    &&& d.carrier_ack == d.flight_plan_submitted
    // the state fields as seen at `now`
    &&& state_values_ok(
        departure,
        arrival,
        now,
        (
            FlightStatus::spec_from_value(d.flight_status)->0,
            d.flight_release_approval,
            d.actual_departure_time,
            d.actual_arrival_time,
            d.approved_by,
        ),
    )
    &&& FlightStatus::spec_from_value(d.flight_status) is Some
    &&& d.flight_priority == FlightPriority::Low.spec_value()
}

/// A sample flight plan departing between `days_from_now_min` and
/// `days_from_now_max` days after `now` (whole seconds, on the hour).
pub fn get_data_obj_at(now: i64, days_from_now_min: i64, days_from_now_max: i64) -> (r:
    FlightPlanSample)
    requires
        -9_000_000_003_600 <= now <= 9_000_000_000_000,
        days_from_now_min < days_from_now_max,
        -9_200_000_000_000 <= now + days_from_now_min * 86400,
        now + days_from_now_max * 86400 + 4 * 3600 <= 9_200_000_000_000,
    ensures
        sample_ok(r, now as int, days_from_now_min as int, days_from_now_max as int),
{
    // a minimum of 500 meters and a maximum range of about 200km
    let flight_distance_meters = random_in_range(500, 200000);
    // a somewhat realistic duration based on the flight distance (+/- 100km per hour avg.)
    let avg_speed = random_in_range(95, 105);
    let flight_duration_hours = flight_distance_meters / 1000 / avg_speed;
    assert(flight_duration_hours == flight_hours(flight_distance_meters as int, avg_speed as int));
    assert(0 <= flight_hours(flight_distance_meters as int, avg_speed as int) <= 3) by (nonlinear_arith)
        requires
            500 <= flight_distance_meters < 200000,
            95 <= avg_speed < 105,
    ;

    let departure = random_time(now, days_from_now_min, days_from_now_max);
    let arrival = departure + flight_duration_hours * 3600;

    let submitted_days = random_in_range(1, 90);
    let flight_plan_submitted = Some(
        Timestamp { seconds: departure - submitted_days * 86400, nanos: 0 },
    );
    let carrier_ack = flight_plan_submitted;
    let origin_timeslot_start = Some(Timestamp { seconds: departure, nanos: 0 });
    let origin_timeslot_end = Some(Timestamp { seconds: departure + 60, nanos: 0 });
    let target_timeslot_start = Some(Timestamp { seconds: arrival - 60, nanos: 0 });
    let target_timeslot_end = Some(Timestamp { seconds: arrival, nanos: 0 });

    let (
        flight_status,
        flight_release_approval,
        actual_departure_time,
        actual_arrival_time,
        approved_by,
    ) = _data_values_by_departure_and_arrival_date(departure, arrival, now);

    let data = Data {
        session_id: "AETH00001".to_string(),
        pilot_id: new_uuid_v4(),
        vehicle_id: new_uuid_v4(),
        weather_conditions: Some("cold and windy".to_string()),
        origin_vertiport_id: new_uuid_v4(),
        origin_vertipad_id: new_uuid_v4(),
        target_vertiport_id: new_uuid_v4(),
        target_vertipad_id: new_uuid_v4(),
        carrier_ack,
        origin_timeslot_start,
        origin_timeslot_end,
        target_timeslot_start,
        target_timeslot_end,
        actual_departure_time,
        actual_arrival_time,
        flight_release_approval,
        flight_plan_submitted,
        approved_by,
        flight_status: flight_status.value(),
        flight_priority: FlightPriority::Low.value(),
    };
    proof {
        crate::resources::flight_plan::lemma_flight_status_names_and_values(flight_status, 0);
    }
    FlightPlanSample {
        data,
        flight_distance_meters: flight_distance_meters as u32,
        avg_speed,
    }
}

/// Creates a sample flight plan departing between 90 days before and 90
/// days after the current hour.
///
/// While the generated dates and numbers are random, all values are valid
/// and as realistic as possible. UUIDs are generated, but these fields can
/// always be changed by the caller to provide real existing UUIDs.
pub fn get_data_obj() -> (r: FlightPlanSample)
    ensures
        exists|now: int| now % 3600 == 0 && #[trigger] sample_ok(r, now, -90, 90),
{
    let now = current_hour();
    get_data_obj_at(now, -90, 90)
}

/// Creates a sample flight plan departing between 1 and 90 days after the
/// current hour: a draft, neither released nor departed.
pub fn get_future_data_obj() -> (r: FlightPlanSample)
    ensures
        exists|now: int| now % 3600 == 0 && #[trigger] sample_ok(r, now, 1, 90),
        r.data.flight_status == FlightStatus::Draft.spec_value(),
        r.data.flight_release_approval is None,
        r.data.approved_by is None,
        r.data.actual_departure_time is None,
        r.data.actual_arrival_time is None,
{
    let now = current_hour();
    let r = get_data_obj_at(now, 1, 90);
    proof {
        lemma_future_sample_is_draft(r, now as int);
    }
    r
}

/// Creates a sample flight plan departing between 90 days and 1 day before
/// the current hour: released, departed and arrived, so finished.
pub fn get_past_data_obj() -> (r: FlightPlanSample)
    ensures
        exists|now: int| now % 3600 == 0 && #[trigger] sample_ok(r, now, -90, -1),
        r.data.flight_status == FlightStatus::Finished.spec_value(),
        r.data.flight_release_approval is Some,
        r.data.approved_by is Some,
        r.data.actual_departure_time is Some,
        r.data.actual_arrival_time is Some,
{
    let now = current_hour();
    let r = get_data_obj_at(now, -90, -1);
    proof {
        lemma_past_sample_has_departed(r, now as int);
    }
    r
}

/// A sample departing a day or more after `now` is a draft that is neither
/// released nor departed nor arrived.
pub proof fn lemma_future_sample_is_draft(s: FlightPlanSample, now: int)
    requires
        sample_ok(s, now, 1, 90),
    ensures
        s.data.flight_status == FlightStatus::Draft.spec_value(),
        s.data.flight_release_approval is None,
        s.data.approved_by is None,
        s.data.actual_departure_time is None,
        s.data.actual_arrival_time is None,
{
    let d = s.data;
    let departure = d.origin_timeslot_start->0.seconds as int;
    let arrival = d.target_timeslot_end->0.seconds as int;
    let (days, hours, minutes) = choose|days: int, hours: int, minutes: int|
        1 <= days < 90 && 0 <= hours < 24 && is_five_minute_mark(minutes) && departure == shifted(
            now,
            days,
            hours,
            minutes,
        );
    assert(departure >= now + 86400);
    assert(arrival >= departure) by (nonlinear_arith)
        requires
            arrival == departure + 3600 * flight_hours(
                s.flight_distance_meters as int,
                s.avg_speed as int,
            ),
            500 <= s.flight_distance_meters,
            95 <= s.avg_speed,
    ;
    let st = FlightStatus::spec_from_value(d.flight_status)->0;
    crate::resources::flight_plan::lemma_flight_status_names_and_values(st, d.flight_status);
}

/// A sample departing a day or more before `now` has departed, been
/// released and arrived: it is finished, never boarding or in flight.
pub proof fn lemma_past_sample_has_departed(s: FlightPlanSample, now: int)
    requires
        sample_ok(s, now, -90, -1),
    ensures
        s.data.flight_status == FlightStatus::Finished.spec_value(),
        s.data.flight_release_approval is Some,
        s.data.approved_by is Some,
        s.data.actual_departure_time is Some,
        s.data.actual_arrival_time is Some,
{
    let d = s.data;
    let departure = d.origin_timeslot_start->0.seconds as int;
    let arrival = d.target_timeslot_end->0.seconds as int;
    let (days, hours, minutes) = choose|days: int, hours: int, minutes: int|
        -90 <= days < -1 && 0 <= hours < 24 && is_five_minute_mark(minutes) && departure
            == shifted(now, days, hours, minutes);
    assert(departure <= now - 86700);
    assert(flight_hours(s.flight_distance_meters as int, s.avg_speed as int) <= 3) by (
    nonlinear_arith)
        requires
            500 <= s.flight_distance_meters < 200000,
            95 <= s.avg_speed < 105,
    ;
    assert(arrival < now);
    let st = FlightStatus::spec_from_value(d.flight_status)->0;
    crate::resources::flight_plan::lemma_flight_status_names_and_values(st, d.flight_status);
}

} // verus!
