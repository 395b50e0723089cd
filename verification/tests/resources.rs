use svc_storage::resources::flight_plan::{FlightPriority, FlightStatus};
use svc_storage::resources::vertiport::Location;
use svc_storage::resources::{current_hour, random_time, start_of_hour, vehicle};
use svc_storage::search::get_single_search_value;
use svc_storage::text::{join_text, decimal_string, text_contains, text_eq, zero_padded_decimal};
use svc_storage::{Cli, UnknownEnumValue, DEFAULT_SRID};

#[test]
fn start_of_hour_rounds_down() {
    assert_eq!(start_of_hour(0), 0);
    assert_eq!(start_of_hour(3599), 0);
    assert_eq!(start_of_hour(3600), 3600);
    assert_eq!(start_of_hour(1_700_001_234), 1_699_999_200);
    // before the epoch the hour still starts at or before the time
    assert_eq!(start_of_hour(-1), -3600);
    assert_eq!(start_of_hour(-3600), -3600);
    assert_eq!(start_of_hour(-3601), -7200);
    assert_eq!(current_hour() % 3600, 0);
}

#[test]
fn random_times_fall_on_five_minute_marks_in_range() {
    let base = 1_700_000_000 - 1_700_000_000 % 3600;
    for _ in 0..200 {
        let t = random_time(base, 2, 5);
        assert!(t >= base + 2 * 86400);
        assert!(t < base + 5 * 86400);
        assert_eq!((t - base) % 300, 0);
    }
}

#[test]
fn flight_enumerations_have_their_wire_values() {
    assert_eq!(FlightStatus::Ready.value(), 0);
    assert_eq!(FlightStatus::Boarding.value(), 1);
    assert_eq!(FlightStatus::InFlight.value(), 3);
    assert_eq!(FlightStatus::Finished.value(), 4);
    assert_eq!(FlightStatus::Cancelled.value(), 5);
    assert_eq!(FlightStatus::Draft.value(), 6);
    assert_eq!(FlightStatus::from_value(2), None);
    assert_eq!(FlightStatus::try_from(3), Ok(FlightStatus::InFlight));
    assert_eq!(FlightStatus::try_from(2), Err(UnknownEnumValue(2)));
    assert_eq!(FlightStatus::InFlight.as_str_name(), "IN_FLIGHT");
    assert_eq!(FlightStatus::from_str_name("DRAFT"), Some(FlightStatus::Draft));
    assert_eq!(FlightStatus::from_str_name("draft"), None);
    assert_eq!(FlightPriority::Emergency.value(), 2);
    assert_eq!(FlightPriority::High.as_str_name(), "HIGH");
    assert_eq!(FlightPriority::from_str_name("LOW"), Some(FlightPriority::Low));
}

#[test]
fn locations_index_the_demo_list() {
    let list = vec!["es", "ka", "wi", "ho", "kw", "dh"];
    assert_eq!(*Location::NLHoorn.index_in(&list), "ho");
    assert_eq!(*Location::USEscondido.index_in(&list), "es");
    assert_eq!(Location::NLDenHelder.position(), 5);
    // a list holds a location when the location's position lies below its
    // length; the six demo locations all lie in a list of six
    assert!(Location::NLHoorn.listed_in(6));
    assert!(Location::NLDenHelder.listed_in(6));
    assert!(!Location::NLHoorn.listed_in(3));
    assert!(Location::NLHoorn.listed_in(4));
}

#[test]
fn single_search_value_errors_name_the_count() {
    assert_eq!(get_single_search_value(&vec!["a".to_string()]), Ok("a".to_string()));
    assert_eq!(
        get_single_search_value(&vec![]),
        Err("Error in advanced search parameters. Expecting a single value, but got [0] values".to_string())
    );
    assert_eq!(
        get_single_search_value(&vec!["a".to_string(), "b".to_string(), "c".to_string()]),
        Err("Error in advanced search parameters. Expecting a single value, but got [3] values".to_string())
    );
}

#[test]
fn text_helpers() {
    assert!(text_eq("abc", "abc"));
    assert!(!text_eq("abc", "abd"));
    assert!(text_contains("hello world", "o w"));
    assert!(text_contains("hello", ""));
    assert!(!text_contains("hello", "hello!"));
    assert!(!text_contains("", "a"));
    assert_eq!(decimal_string(0), "0");
    assert_eq!(decimal_string(1234567890), "1234567890");
    assert_eq!(decimal_string(u64::MAX), "18446744073709551615");
    assert_eq!(zero_padded_decimal(42, 8), "00000042");
    assert_eq!(zero_padded_decimal(123456789, 8), "123456789");
    assert_eq!(join_text("ab", "cd"), "abcd");
}

#[test]
fn vehicle_sample_numbers_and_maintenance() {
    for _ in 0..20 {
        let data = vehicle::mock::get_data_obj();
        assert!(data.serial_number.starts_with("S-MOCK-"));
        assert_eq!(data.serial_number.len(), "S-MOCK-".len() + 8);
        assert!(data.registration_number.starts_with("N-DEMO-"));
        let last = data.last_maintenance.unwrap().seconds;
        let next = data.next_maintenance.unwrap().seconds;
        assert!(last < next);
        assert_eq!(last % 300, 0);
        assert_eq!(next % 300, 0);
    }
}

#[test]
fn defaults() {
    assert_eq!(DEFAULT_SRID, 4326);
    let cli = Cli::default();
    assert_eq!(cli.init_psql, None);
    assert_eq!(cli.rebuild_psql, None);
}
