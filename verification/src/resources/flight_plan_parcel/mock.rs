//! Sample flight plan parcel links.

use vstd::prelude::*;
use crate::platform::{is_uuid_v4_text, new_uuid_v4, random_in_range};
use super::{Data, RowData};

verus! {

/// `flag` is what a number `draw` drawn from `1..2000` gives: set when it is
/// even.
pub open spec fn drawn_flag(flag: bool, draw: int) -> bool {
    1 <= draw < 2000 && flag == (draw % 2 == 0)
}

/// The flags drawn for a flight plan parcel: acquire when the first drawn
/// number is even, deliver when the second is.
pub fn get_data_obj_from_draws(acquire_draw: i64, deliver_draw: i64) -> (r: Data)
    ensures
        r.acquire == (acquire_draw % 2 == 0),
        r.deliver == (deliver_draw % 2 == 0),
{
    Data { acquire: acquire_draw % 2 == 0, deliver: deliver_draw % 2 == 0 }
}

/// Creates a new [Data] object: each flag is set when a number drawn from
/// `1..2000` is even.
pub fn get_data_obj() -> (r: Data)
    ensures
        exists|a: int, d: int| #[trigger] drawn_flag(r.acquire, a) && #[trigger] drawn_flag(r.deliver, d),
{
    let acquire_random = random_in_range(1, 2000);
    let deliver_random = random_in_range(1, 2000);
    let r = get_data_obj_from_draws(acquire_random, deliver_random);
    assert(drawn_flag(r.acquire, acquire_random as int) && drawn_flag(r.deliver, deliver_random as int));
    r
}

/// The row for the given flight plan and parcel ids with the flags drawn:
/// acquire when the first drawn number is even, deliver when the second
/// is.
pub fn get_row_data_obj_from_draws(
    flight_plan_id: String,
    parcel_id: String,
    acquire_draw: i64,
    deliver_draw: i64,
) -> (r: RowData)
    ensures
        r.flight_plan_id == flight_plan_id,
        r.parcel_id == parcel_id,
        r.acquire == (acquire_draw % 2 == 0),
        r.deliver == (deliver_draw % 2 == 0),
{
    RowData {
        flight_plan_id,
        parcel_id,
        acquire: acquire_draw % 2 == 0,
        deliver: deliver_draw % 2 == 0,
    }
}

/// Creates a new [RowData] object for new random flight plan and parcel
/// ids; each flag is set when a number drawn from `1..2000` is even.
pub fn get_row_data_obj() -> (r: RowData)
    ensures
        is_uuid_v4_text(r.flight_plan_id@),
        is_uuid_v4_text(r.parcel_id@),
        exists|a: int, d: int| #[trigger] drawn_flag(r.acquire, a) && #[trigger] drawn_flag(r.deliver, d),
{
    let flight_plan_id = new_uuid_v4();
    let parcel_id = new_uuid_v4();
    let acquire_random = random_in_range(1, 2000);
    let deliver_random = random_in_range(1, 2000);
    let r = get_row_data_obj_from_draws(flight_plan_id, parcel_id, acquire_random, deliver_random);
    assert(drawn_flag(r.acquire, acquire_random as int) && drawn_flag(r.deliver, deliver_random as int));
    r
}

} // verus!
