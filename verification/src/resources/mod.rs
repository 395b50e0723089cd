//! Resource records stored by the service, with the sample records that
//! tests and demo setups use.

use vstd::prelude::*;
use crate::platform::{random_choice, random_in_range};

pub mod adsb;
pub mod asset_group;
pub mod flight_plan;
pub mod flight_plan_parcel;
pub mod group;
pub mod itinerary;
pub mod itinerary_flight_plan;
pub mod parcel;
pub mod parcel_scan;
pub mod pilot;
pub mod scanner;
pub mod user;
pub mod vehicle;
pub mod vertipad;
pub mod vertiport;

pub use crate::search::AdvancedSearchFilter;
pub use crate::search::ComparisonOperator;
pub use crate::search::FilterOption;
pub use crate::search::PredicateOperator;
pub use crate::search::SortOption;
pub use crate::search::SortOrder;

verus! {

/// A point in time: whole seconds since the Unix epoch and the nanoseconds
/// past that second.
#[derive(Clone, Copy, Debug, PartialEq, Eq, Structural, Default)]
pub struct Timestamp {
    /// seconds since 1970-01-01T00:00:00Z
    pub seconds: i64,
    /// nanoseconds past `seconds`
    pub nanos: i32,
}

/// Seconds in an hour.
pub const SECONDS_PER_HOUR: i64 = 3600;

/// Seconds in a day.
pub const SECONDS_PER_DAY: i64 = 86400;

/// The start of the hour that contains `t` (seconds since the epoch).
pub open spec fn hour_start(t: int) -> int {
    t - t % 3600
}

/// The start of the hour that contains `t`.
pub fn start_of_hour(t: i64) -> (r: i64)
    requires
        -9_000_000_000_000 - 86_400 <= t <= 9_000_000_000_000 + 86_400,
    ensures
        r == hour_start(t as int),
        r <= t < r + 3600,
        r % 3600 == 0,
{
    if t >= 0 {
        t - t % SECONDS_PER_HOUR
    } else {
        let p: i64 = -(t + 1);
        let q: i64 = p / SECONDS_PER_HOUR;
        let r: i64 = -(q + 1) * SECONDS_PER_HOUR;
        proof {
            let rem = p % 3600;
            assert(p == q * 3600 + rem && 0 <= rem < 3600);
            assert(t == r + (3599 - rem));
            assert(r % 3600 == 0) by (nonlinear_arith)
                requires
                    r == -(q + 1) * 3600,
            ;
            assert(t % 3600 == 3599 - rem) by (nonlinear_arith)
                requires
                    t == r + (3599 - rem),
                    r % 3600 == 0,
                    0 <= 3599 - rem < 3600,
            ;
        }
        r
    }
}

/// A time `days` days, `hours` hours and `minutes` minutes after `base`.
pub open spec fn shifted(base: int, days: int, hours: int, minutes: int) -> int {
    base + days * 86400 + hours * 3600 + minutes * 60
}

/// A minute past the hour on which sample records are scheduled: a
/// multiple of five.
pub open spec fn is_five_minute_mark(minutes: int) -> bool {
    0 <= minutes <= 55 && minutes % 5 == 0
}

/// `t` is a time that [`random_time`] gives for `base` and the days
/// `min_days..max_days`.
pub open spec fn sampled_time(t: int, base: int, min_days: int, max_days: int) -> bool {
    exists|days: int, hours: int, minutes: int|
        min_days <= days < max_days && 0 <= hours < 24 && is_five_minute_mark(minutes) && t
            == #[trigger] shifted(base, days, hours, minutes)
}

/// A time that [`random_time`] gives lies on a five-minute mark where
/// `base` is on the hour; before `base` when drawn from days before it, at
/// or after `base` when drawn from days after it.
pub proof fn lemma_sampled_time(t: int, base: int, min_days: int, max_days: int)
    requires
        sampled_time(t, base, min_days, max_days),
        base % 3600 == 0,
    ensures
        t % 300 == 0,
        max_days <= 0 ==> t < base,
        min_days >= 0 ==> t >= base,
{
    let (d, h, m) = choose|days: int, hours: int, minutes: int|
        min_days <= days < max_days && 0 <= hours < 24 && is_five_minute_mark(minutes) && t
            == #[trigger] shifted(base, days, hours, minutes);
    assert(t == base + d * 86400 + h * 3600 + m * 60);
    assert((base + d * 86400 + h * 3600 + m * 60) % 300 == 0) by (nonlinear_arith)
        requires
            base % 3600 == 0,
            m % 5 == 0,
    ;
}

/// A random time after `base`: a random number of days in
/// `min_days..max_days`, a random hour in `0..24`, and a random minute
/// among the five-minute marks of an hour.
pub fn random_time(base: i64, min_days: i64, max_days: i64) -> (r: i64)
    requires
        -9_100_000_000_000 <= base <= 9_100_000_000_000,
        min_days < max_days,
        -9_200_000_000_000 <= base + min_days * 86400,
        base + max_days * 86400 <= 9_200_000_000_000,
    ensures
        exists|days: int, hours: int, minutes: int|
            min_days <= days < max_days && 0 <= hours < 24 && is_five_minute_mark(minutes)
                && r == shifted(base as int, days, hours, minutes),
{
    let days = random_in_range(min_days, max_days);
    let hours = random_in_range(0, 24);
    let marks: Vec<i64> = vec![0, 5, 10, 15, 20, 25, 30, 35, 40, 45, 50, 55];
    let minutes = random_choice(&marks);
    assert(is_five_minute_mark(minutes as int)) by {
        let k = choose|k: int| 0 <= k < marks@.len() && marks@[k] == minutes;
        assert(0 <= k < 12);
    }
    let r = base + days * SECONDS_PER_DAY + hours * SECONDS_PER_HOUR + minutes * 60;
    assert(r == shifted(base as int, days as int, hours as int, minutes as int));
    r
}

/// The current time, from the clock.
pub fn now() -> (r: Timestamp)
    ensures
        -9_000_000_000_000 <= r.seconds <= 9_000_000_000_000,
        0 <= r.nanos < 2_000_000_000,
{
    let (seconds, nanos) = crate::platform::utc_now();
    Timestamp { seconds, nanos }
}

/// The start of the current UTC hour, from the clock.
pub fn current_hour() -> (r: i64)
    ensures
        -9_000_000_003_600 <= r <= 9_000_000_000_000,
        r % 3600 == 0,
{
    let (seconds, _nanos) = crate::platform::utc_now();
    start_of_hour(seconds)
}

} // verus!
