//! Sample pilot records.

use vstd::prelude::*;
use super::Data;

verus! {

/// Creates a new [Data] object with fixed sample values.
pub fn get_data_obj() -> (r: Data)
    ensures
        r.first_name@ == "John"@,
        r.last_name@ == "Doe"@,
{
    Data { first_name: "John".to_string(), last_name: "Doe".to_string() }
}

} // verus!
