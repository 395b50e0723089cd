//! Sample user records.

use vstd::prelude::*;
use super::{AuthMethod, Data};

verus! {

/// Creates a new [Data] object with fixed sample values.
pub fn get_data_obj() -> (r: Data)
    ensures
        r.display_name@ == "John"@,
        r.auth_method == AuthMethod::OauthFacebook.spec_value(),
        r.email@ == "example@aetheric.nl"@,
{
    Data {
        display_name: "John".to_string(),
        auth_method: AuthMethod::OauthFacebook.value(),
        email: "example@aetheric.nl".to_string(),
    }
}

} // verus!
