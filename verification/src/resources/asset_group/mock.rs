//! Sample asset group records.

use vstd::prelude::*;
use super::Data;

verus! {

/// The schedule given to the sample asset group: every day, all day.
pub open spec fn default_schedule() -> Seq<char> {
    "DTSTART:20221020T180000Z;DURATION:PT24H\nRRULE:FREQ=DAILY;BYDAY=MO,TU,WE,TH,FR,SA,SU"@
}

/// Creates a new [Data] object with fixed sample values.
pub fn get_data_obj() -> (r: Data)
    ensures
        r.name@ == "Default Assets"@,
        r.description@ == "Default asset group."@,
        r.default_vertiport_schedule matches Some(s) && s@ == default_schedule(),
        r.default_aircraft_schedule matches Some(s) && s@ == default_schedule(),
{
    let default_schedule =
        "DTSTART:20221020T180000Z;DURATION:PT24H\nRRULE:FREQ=DAILY;BYDAY=MO,TU,WE,TH,FR,SA,SU".to_string();
    Data {
        name: "Default Assets".to_string(),
        description: "Default asset group.".to_string(),
        default_vertiport_schedule: Some(default_schedule.clone()),
        default_aircraft_schedule: Some(default_schedule),
    }
}

} // verus!
