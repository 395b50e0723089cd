//! Flight plans.

use vstd::prelude::*;
use vstd::std_specs::convert::{FromSpecImpl, TryFromSpecImpl};
use crate::text::text_eq;
use crate::UnknownEnumValue;
use crate::resources::Timestamp;

pub mod mock;

verus! {

/// Flight Status Enum
#[derive(Clone, Copy, Debug, PartialEq, Eq, Structural, Hash, PartialOrd, Ord)]
pub enum FlightStatus {
    /// READY
    Ready,
    /// BOARDING
    Boarding,
    /// IN_FLIGHT
    InFlight,
    /// FINISHED
    Finished,
    /// CANCELLED
    Cancelled,
    /// DRAFT
    Draft,
}

impl FlightStatus {
    /// The wire value of the variant.
    pub open spec fn spec_value(self) -> i32 {
        match self {
            FlightStatus::Ready => 0,
            FlightStatus::Boarding => 1,
            FlightStatus::InFlight => 3,
            FlightStatus::Finished => 4,
            FlightStatus::Cancelled => 5,
            FlightStatus::Draft => 6,
        }
    }

    /// The variant with the given wire value, if any.
    pub open spec fn spec_from_value(value: i32) -> Option<FlightStatus> {
        if value == 0 {
            Some(FlightStatus::Ready)
        } else if value == 1 {
            Some(FlightStatus::Boarding)
        } else if value == 3 {
            Some(FlightStatus::InFlight)
        } else if value == 4 {
            Some(FlightStatus::Finished)
        } else if value == 5 {
            Some(FlightStatus::Cancelled)
        } else if value == 6 {
            Some(FlightStatus::Draft)
        } else {
            None
        }
    }

    /// The field name used in the ProtoBuf definition.
    pub open spec fn spec_str_name(self) -> Seq<char> {
        match self {
            FlightStatus::Ready => "READY"@,
            FlightStatus::Boarding => "BOARDING"@,
            FlightStatus::InFlight => "IN_FLIGHT"@,
            FlightStatus::Finished => "FINISHED"@,
            FlightStatus::Cancelled => "CANCELLED"@,
            FlightStatus::Draft => "DRAFT"@,
        }
    }

    /// The variant whose ProtoBuf field name is `name`, if any.
    pub open spec fn spec_from_str_name(name: Seq<char>) -> Option<FlightStatus> {
        if name == "READY"@ {
            Some(FlightStatus::Ready)
        } else if name == "BOARDING"@ {
            Some(FlightStatus::Boarding)
        } else if name == "IN_FLIGHT"@ {
            Some(FlightStatus::InFlight)
        } else if name == "FINISHED"@ {
            Some(FlightStatus::Finished)
        } else if name == "CANCELLED"@ {
            Some(FlightStatus::Cancelled)
        } else if name == "DRAFT"@ {
            Some(FlightStatus::Draft)
        } else {
            None
        }
    }

    /// The wire value of the variant.
    pub fn value(&self) -> (r: i32)
        ensures
            r == self.spec_value(),
    {
        match self {
            FlightStatus::Ready => 0,
            FlightStatus::Boarding => 1,
            FlightStatus::InFlight => 3,
            FlightStatus::Finished => 4,
            FlightStatus::Cancelled => 5,
            FlightStatus::Draft => 6,
        }
    }

    /// The variant with the given wire value, if any.
    pub fn from_value(value: i32) -> (r: Option<FlightStatus>)
        ensures
            r == FlightStatus::spec_from_value(value),
    {
        if value == 0 {
            Some(FlightStatus::Ready)
        } else if value == 1 {
            Some(FlightStatus::Boarding)
        } else if value == 3 {
            Some(FlightStatus::InFlight)
        } else if value == 4 {
            Some(FlightStatus::Finished)
        } else if value == 5 {
            Some(FlightStatus::Cancelled)
        } else if value == 6 {
            Some(FlightStatus::Draft)
        } else {
            None
        }
    }

    /// String value of the enum field names used in the ProtoBuf definition.
    pub fn as_str_name(&self) -> (r: &'static str)
        ensures
            r@ == self.spec_str_name(),
    {
        match self {
            FlightStatus::Ready => "READY",
            FlightStatus::Boarding => "BOARDING",
            FlightStatus::InFlight => "IN_FLIGHT",
            FlightStatus::Finished => "FINISHED",
            FlightStatus::Cancelled => "CANCELLED",
            FlightStatus::Draft => "DRAFT",
        }
    }

    /// Creates an enum from field names used in the ProtoBuf definition.
    pub fn from_str_name(value: &str) -> (r: Option<FlightStatus>)
        ensures
            r == FlightStatus::spec_from_str_name(value@),
    {
        if text_eq(value, "READY") {
            Some(FlightStatus::Ready)
        } else if text_eq(value, "BOARDING") {
            Some(FlightStatus::Boarding)
        } else if text_eq(value, "IN_FLIGHT") {
            Some(FlightStatus::InFlight)
        } else if text_eq(value, "FINISHED") {
            Some(FlightStatus::Finished)
        } else if text_eq(value, "CANCELLED") {
            Some(FlightStatus::Cancelled)
        } else if text_eq(value, "DRAFT") {
            Some(FlightStatus::Draft)
        } else {
            None
        }
    }
}

impl TryFrom<i32> for FlightStatus {
    type Error = UnknownEnumValue;

    fn try_from(value: i32) -> (r: Result<FlightStatus, UnknownEnumValue>) {
        match FlightStatus::from_value(value) {
            Some(v) => Ok(v),
            None => Err(UnknownEnumValue(value)),
        }
    }
}

impl TryFromSpecImpl<i32> for FlightStatus {
    open spec fn obeys_try_from_spec() -> bool {
        true
    }

    open spec fn try_from_spec(value: i32) -> Result<FlightStatus, UnknownEnumValue> {
        match FlightStatus::spec_from_value(value) {
            Some(v) => Ok(v),
            None => Err(UnknownEnumValue(value)),
        }
    }
}

impl From<FlightStatus> for i32 {
    fn from(value: FlightStatus) -> (r: i32) {
        value.value()
    }
}

impl FromSpecImpl<FlightStatus> for i32 {
    open spec fn obeys_from_spec() -> bool {
        true
    }

    open spec fn from_spec(value: FlightStatus) -> i32 {
        value.spec_value()
    }
}

/// Every FlightStatus is found again from its ProtoBuf field name, and from its
/// wire value; and a wire value that names a variant is that variant's value.
pub proof fn lemma_flight_status_names_and_values(op: FlightStatus, value: i32)
    ensures
        FlightStatus::spec_from_str_name(op.spec_str_name()) == Some(op),
        FlightStatus::spec_from_value(op.spec_value()) == Some(op),
        FlightStatus::spec_from_value(value) == Some(op) ==> op.spec_value() == value,
{
    match op {
        FlightStatus::Ready => {
            assert(FlightStatus::spec_from_str_name("READY"@) == Some(FlightStatus::Ready));
        },
        FlightStatus::Boarding => {
            assert("BOARDING"@ != "READY"@) by {
                reveal_strlit("BOARDING");
                reveal_strlit("READY");
                assert("BOARDING"@.len() != "READY"@.len());
            }
            assert(FlightStatus::spec_from_str_name("BOARDING"@) == Some(FlightStatus::Boarding));
        },
        FlightStatus::InFlight => {
            assert("IN_FLIGHT"@ != "READY"@) by {
                reveal_strlit("IN_FLIGHT");
                reveal_strlit("READY");
                assert("IN_FLIGHT"@.len() != "READY"@.len());
            }
            assert("IN_FLIGHT"@ != "BOARDING"@) by {
                reveal_strlit("IN_FLIGHT");
                reveal_strlit("BOARDING");
                assert("IN_FLIGHT"@.len() != "BOARDING"@.len());
            }
            assert(FlightStatus::spec_from_str_name("IN_FLIGHT"@) == Some(FlightStatus::InFlight));
        },
        FlightStatus::Finished => {
            assert("FINISHED"@ != "READY"@) by {
                reveal_strlit("FINISHED");
                reveal_strlit("READY");
                assert("FINISHED"@.len() != "READY"@.len());
            }
            assert("FINISHED"@ != "BOARDING"@) by {
                reveal_strlit("FINISHED");
                reveal_strlit("BOARDING");
                assert("FINISHED"@[0] != "BOARDING"@[0]);
            }
            assert("FINISHED"@ != "IN_FLIGHT"@) by {
                reveal_strlit("FINISHED");
                reveal_strlit("IN_FLIGHT");
                assert("FINISHED"@.len() != "IN_FLIGHT"@.len());
            }
            assert(FlightStatus::spec_from_str_name("FINISHED"@) == Some(FlightStatus::Finished));
        },
        FlightStatus::Cancelled => {
            assert("CANCELLED"@ != "READY"@) by {
                reveal_strlit("CANCELLED");
                reveal_strlit("READY");
                assert("CANCELLED"@.len() != "READY"@.len());
            }
            assert("CANCELLED"@ != "BOARDING"@) by {
                reveal_strlit("CANCELLED");
                reveal_strlit("BOARDING");
                assert("CANCELLED"@.len() != "BOARDING"@.len());
            }
            assert("CANCELLED"@ != "IN_FLIGHT"@) by {
                reveal_strlit("CANCELLED");
                reveal_strlit("IN_FLIGHT");
                assert("CANCELLED"@[0] != "IN_FLIGHT"@[0]);
            }
            assert("CANCELLED"@ != "FINISHED"@) by {
                reveal_strlit("CANCELLED");
                reveal_strlit("FINISHED");
                assert("CANCELLED"@.len() != "FINISHED"@.len());
            }
            assert(FlightStatus::spec_from_str_name("CANCELLED"@) == Some(FlightStatus::Cancelled));
        },
        FlightStatus::Draft => {
            assert("DRAFT"@ != "READY"@) by {
                reveal_strlit("DRAFT");
                reveal_strlit("READY");
                assert("DRAFT"@[0] != "READY"@[0]);
            }
            assert("DRAFT"@ != "BOARDING"@) by {
                reveal_strlit("DRAFT");
                reveal_strlit("BOARDING");
                assert("DRAFT"@.len() != "BOARDING"@.len());
            }
            assert("DRAFT"@ != "IN_FLIGHT"@) by {
                reveal_strlit("DRAFT");
                reveal_strlit("IN_FLIGHT");
                assert("DRAFT"@.len() != "IN_FLIGHT"@.len());
            }
            assert("DRAFT"@ != "FINISHED"@) by {
                reveal_strlit("DRAFT");
                reveal_strlit("FINISHED");
                assert("DRAFT"@.len() != "FINISHED"@.len());
            }
            assert("DRAFT"@ != "CANCELLED"@) by {
                reveal_strlit("DRAFT");
                reveal_strlit("CANCELLED");
                assert("DRAFT"@.len() != "CANCELLED"@.len());
            }
            assert(FlightStatus::spec_from_str_name("DRAFT"@) == Some(FlightStatus::Draft));
        },
    }
}
/// Flight Priority Enum
#[derive(Clone, Copy, Debug, PartialEq, Eq, Structural, Hash, PartialOrd, Ord)]
pub enum FlightPriority {
    /// LOW
    Low,
    /// HIGH
    High,
    /// EMERGENCY
    Emergency,
}

impl FlightPriority {
    /// The wire value of the variant.
    pub open spec fn spec_value(self) -> i32 {
        match self {
            FlightPriority::Low => 0,
            FlightPriority::High => 1,
            FlightPriority::Emergency => 2,
        }
    }

    /// The variant with the given wire value, if any.
    pub open spec fn spec_from_value(value: i32) -> Option<FlightPriority> {
        if value == 0 {
            Some(FlightPriority::Low)
        } else if value == 1 {
            Some(FlightPriority::High)
        } else if value == 2 {
            Some(FlightPriority::Emergency)
        } else {
            None
        }
    }

    /// The field name used in the ProtoBuf definition.
    pub open spec fn spec_str_name(self) -> Seq<char> {
        match self {
            FlightPriority::Low => "LOW"@,
            FlightPriority::High => "HIGH"@,
            FlightPriority::Emergency => "EMERGENCY"@,
        }
    }

    /// The variant whose ProtoBuf field name is `name`, if any.
    pub open spec fn spec_from_str_name(name: Seq<char>) -> Option<FlightPriority> {
        if name == "LOW"@ {
            Some(FlightPriority::Low)
        } else if name == "HIGH"@ {
            Some(FlightPriority::High)
        } else if name == "EMERGENCY"@ {
            Some(FlightPriority::Emergency)
        } else {
            None
        }
    }

    /// The wire value of the variant.
    pub fn value(&self) -> (r: i32)
        ensures
            r == self.spec_value(),
    {
        match self {
            FlightPriority::Low => 0,
            FlightPriority::High => 1,
            FlightPriority::Emergency => 2,
        }
    }

    /// The variant with the given wire value, if any.
    pub fn from_value(value: i32) -> (r: Option<FlightPriority>)
        ensures
            r == FlightPriority::spec_from_value(value),
    {
        if value == 0 {
            Some(FlightPriority::Low)
        } else if value == 1 {
            Some(FlightPriority::High)
        } else if value == 2 {
            Some(FlightPriority::Emergency)
        } else {
            None
        }
    }

    /// String value of the enum field names used in the ProtoBuf definition.
    pub fn as_str_name(&self) -> (r: &'static str)
        ensures
            r@ == self.spec_str_name(),
    {
        match self {
            FlightPriority::Low => "LOW",
            FlightPriority::High => "HIGH",
            FlightPriority::Emergency => "EMERGENCY",
        }
    }

    /// Creates an enum from field names used in the ProtoBuf definition.
    pub fn from_str_name(value: &str) -> (r: Option<FlightPriority>)
        ensures
            r == FlightPriority::spec_from_str_name(value@),
    {
        if text_eq(value, "LOW") {
            Some(FlightPriority::Low)
        } else if text_eq(value, "HIGH") {
            Some(FlightPriority::High)
        } else if text_eq(value, "EMERGENCY") {
            Some(FlightPriority::Emergency)
        } else {
            None
        }
    }
}

impl TryFrom<i32> for FlightPriority {
    type Error = UnknownEnumValue;

    fn try_from(value: i32) -> (r: Result<FlightPriority, UnknownEnumValue>) {
        match FlightPriority::from_value(value) {
            Some(v) => Ok(v),
            None => Err(UnknownEnumValue(value)),
        }
    }
}

impl TryFromSpecImpl<i32> for FlightPriority {
    open spec fn obeys_try_from_spec() -> bool {
        true
    }

    open spec fn try_from_spec(value: i32) -> Result<FlightPriority, UnknownEnumValue> {
        match FlightPriority::spec_from_value(value) {
            Some(v) => Ok(v),
            None => Err(UnknownEnumValue(value)),
        }
    }
}

impl From<FlightPriority> for i32 {
    fn from(value: FlightPriority) -> (r: i32) {
        value.value()
    }
}

impl FromSpecImpl<FlightPriority> for i32 {
    open spec fn obeys_from_spec() -> bool {
        true
    }

    open spec fn from_spec(value: FlightPriority) -> i32 {
        value.spec_value()
    }
}

/// Every FlightPriority is found again from its ProtoBuf field name, and from its
/// wire value; and a wire value that names a variant is that variant's value.
pub proof fn lemma_flight_priority_names_and_values(op: FlightPriority, value: i32)
    ensures
        FlightPriority::spec_from_str_name(op.spec_str_name()) == Some(op),
        FlightPriority::spec_from_value(op.spec_value()) == Some(op),
        FlightPriority::spec_from_value(value) == Some(op) ==> op.spec_value() == value,
{
    match op {
        FlightPriority::Low => {
            assert(FlightPriority::spec_from_str_name("LOW"@) == Some(FlightPriority::Low));
        },
        FlightPriority::High => {
            assert("HIGH"@ != "LOW"@) by {
                reveal_strlit("HIGH");
                reveal_strlit("LOW");
                assert("HIGH"@.len() != "LOW"@.len());
            }
            assert(FlightPriority::spec_from_str_name("HIGH"@) == Some(FlightPriority::High));
        },
        FlightPriority::Emergency => {
            assert("EMERGENCY"@ != "LOW"@) by {
                reveal_strlit("EMERGENCY");
                reveal_strlit("LOW");
                assert("EMERGENCY"@.len() != "LOW"@.len());
            }
            assert("EMERGENCY"@ != "HIGH"@) by {
                reveal_strlit("EMERGENCY");
                reveal_strlit("HIGH");
                assert("EMERGENCY"@.len() != "HIGH"@.len());
            }
            assert(FlightPriority::spec_from_str_name("EMERGENCY"@) == Some(FlightPriority::Emergency));
        },
    }
}
/// A flight plan, without its floating-point fields: the flight path (a
/// line of geographic points) and the cruise and hover speeds.
#[derive(Clone, Debug, PartialEq, Eq, Default)]
pub struct Data {
    /// session id of the flight
    pub session_id: String,
    /// id of the pilot
    pub pilot_id: String,
    /// id of the vehicle
    pub vehicle_id: String,
    /// weather conditions
    pub weather_conditions: Option<String>,
    /// id of the departure vertiport
    pub origin_vertiport_id: String,
    /// id of the departure vertipad
    pub origin_vertipad_id: String,
    /// id of the arrival vertiport
    pub target_vertiport_id: String,
    /// id of the arrival vertipad
    pub target_vertipad_id: String,
    /// when the carrier acknowledged the plan
    pub carrier_ack: Option<Timestamp>,
    /// start of the departure timeslot
    pub origin_timeslot_start: Option<Timestamp>,
    /// end of the departure timeslot
    pub origin_timeslot_end: Option<Timestamp>,
    /// start of the arrival timeslot
    pub target_timeslot_start: Option<Timestamp>,
    /// end of the arrival timeslot
    pub target_timeslot_end: Option<Timestamp>,
    /// actual departure time
    pub actual_departure_time: Option<Timestamp>,
    /// actual arrival time
    pub actual_arrival_time: Option<Timestamp>,
    /// when the flight was released
    pub flight_release_approval: Option<Timestamp>,
    /// when the plan was submitted
    pub flight_plan_submitted: Option<Timestamp>,
    /// id of whoever approved the flight
    pub approved_by: Option<String>,
    /// wire value of a [`FlightStatus`]
    pub flight_status: i32,
    /// wire value of a [`FlightPriority`]
    pub flight_priority: i32,
}

} // verus!
