//! Sample scanner records.

use vstd::prelude::*;
use crate::platform::{is_uuid_v4_text, new_uuid_v4};
use super::{Data, ScannerStatus, ScannerType};

verus! {

/// Creates a new [Data] object for a new random organization id: an
/// active mobile scanner.
pub fn get_data_obj() -> (r: Data)
    ensures
        is_uuid_v4_text(r.organization_id@),
        r.scanner_type == ScannerType::Mobile.spec_value(),
        r.scanner_status == ScannerStatus::Active.spec_value(),
{
    Data {
        organization_id: new_uuid_v4(),
        scanner_type: ScannerType::Mobile.value(),
        scanner_status: ScannerStatus::Active.value(),
    }
}

} // verus!
