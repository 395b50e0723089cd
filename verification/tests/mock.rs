use svc_storage::resources::flight_plan::mock::{
    _data_values_by_departure_and_arrival_date, get_data_obj_at, get_future_data_obj,
    get_past_data_obj,
};
use svc_storage::resources::flight_plan::FlightStatus;
use svc_storage::resources::group::mock::get_data_obj_for_parent_group;
use svc_storage::resources::itinerary::ItineraryStatus;
use svc_storage::resources::parcel::mock::get_data_obj_for_user_id;
use svc_storage::resources::parcel::ParcelStatus;
use svc_storage::resources::scanner::{ScannerStatus, ScannerType};
use svc_storage::resources::user::AuthMethod;
use svc_storage::resources::vertiport::Location;
use svc_storage::resources::{
    adsb, asset_group, flight_plan, flight_plan_parcel, group, itinerary, parcel, parcel_scan,
    pilot, scanner, user, vehicle, vertipad, vertiport,
};
use uuid::Uuid;

fn now_seconds() -> i64 {
    std::time::SystemTime::now()
        .duration_since(std::time::UNIX_EPOCH)
        .unwrap()
        .as_secs() as i64
}

fn current_hour_seconds() -> i64 {
    let now = now_seconds();
    now - now % 3600
}

#[test]
fn mock_test_get_data_obj() {
    // adsb
    let data: adsb::Data = adsb::mock::get_data_obj();
    assert!(data.icao_address >= 0);
    assert!(data.icao_address < i16::MAX.into());
    assert!(data.message_type >= 0);
    assert!(data.message_type < 22);
    assert!(data.network_timestamp.is_some());
    assert_eq!(data.payload, [0; 14].to_vec());

    // asset_group
    let data: asset_group::Data = asset_group::mock::get_data_obj();
    assert!(data.name.len() > 0);
    assert!(data.description.len() > 0);
    assert!(data.default_vertiport_schedule.is_some());
    assert!(data.default_aircraft_schedule.is_some());

    // flight_plan_parcel
    let _data: flight_plan_parcel::Data = flight_plan_parcel::mock::get_data_obj();

    // group
    let data: group::Data = group::mock::get_data_obj();
    assert!(data.name.len() > 0);
    assert!(data.description.len() > 0);
    assert!(data.parent_group_id.is_none());

    // itinerary
    let data: itinerary::Data = itinerary::mock::get_data_obj();
    assert!(Uuid::parse_str(&data.user_id).is_ok());
    assert!(ItineraryStatus::try_from(data.status) == Ok(ItineraryStatus::Active));

    // parcel
    let data: parcel::Data = parcel::mock::get_data_obj();
    assert!(ParcelStatus::try_from(data.status) == Ok(ParcelStatus::Enroute));
    assert!(Uuid::parse_str(&data.user_id).is_ok());
    assert!(data.weight_grams > 0);

    // pilot
    let data: pilot::Data = pilot::mock::get_data_obj();
    assert!(data.first_name.len() > 0);
    assert!(data.last_name.len() > 0);

    // scanner
    let data: scanner::Data = scanner::mock::get_data_obj();
    assert!(Uuid::parse_str(&data.organization_id).is_ok());
    assert!(ScannerStatus::try_from(data.scanner_status) == Ok(ScannerStatus::Active));
    assert!(ScannerType::try_from(data.scanner_type) == Ok(ScannerType::Mobile));

    // user
    let data: user::Data = user::mock::get_data_obj();
    assert!(data.display_name.len() > 0);
    assert!(AuthMethod::try_from(data.auth_method) == Ok(AuthMethod::OauthFacebook));
    assert!(data.email.len() > 0);

    // vehicle
    let data: vehicle::Data = vehicle::mock::get_data_obj();
    assert!(Uuid::parse_str(&data.vehicle_model_id).is_ok());
    assert!(data.serial_number.len() > 0);
    assert!(data.registration_number.len() > 0);
    assert!(data.description.is_some());
    assert!(data.schedule.is_some());

    // vertiport
    let data: vertiport::Data = vertiport::mock::get_data_obj().data;
    assert!(data.name.len() > 0);
    assert!(data.description.len() > 0);
    assert!(data.schedule.is_some());
    assert!(data.created_at.is_some());
    assert!(data.updated_at.is_some());

    // vertipad
    let data: vertipad::Data = vertipad::mock::get_data_obj();
    assert!(Uuid::parse_str(&data.vertiport_id).is_ok());
    assert!(data.name.starts_with("Demo vertipad "));
    assert!(data.enabled);
    assert!(!data.occupied);
    assert!(data.schedule.is_some());
    assert!(data.created_at.is_some());
    assert_eq!(data.updated_at, data.created_at);

    // parcel_scan
    let data: parcel_scan::Data = parcel_scan::mock::get_data_obj();
    assert!(Uuid::parse_str(&data.parcel_id).is_ok());
    assert!(Uuid::parse_str(&data.scanner_id).is_ok());
    assert!(data.created_at.is_some());
}

#[test]
fn test_get_data_obj_for_locations() {
    let sample = vertiport::mock::get_data_obj_for_location(Location::NLHoorn);
    assert_eq!(sample.location, Location::NLHoorn);
    assert!(sample.data.name.starts_with("Demo vertiport "));
}

#[test]
fn test_location_index_implementation() {
    let hoorn_outline: Vec<(f64, f64, f64)> = vec![
        (4.9891228, 52.6487268, 10.0),
        (4.9892300, 52.6480889, 10.0),
        (4.9901310, 52.6481410, 10.0),
        (4.9900881, 52.6487528, 10.0),
        (4.9891228, 52.6487268, 10.0),
    ];
    let mut locations: Vec<Vec<(f64, f64, f64)>> = vec![vec![]; 6];
    locations[3] = hoorn_outline.clone();
    let hoorn = Location::NLHoorn.index_in(&locations);
    assert_eq!(*hoorn, hoorn_outline);
}

#[test]
fn test_get_data_obj_for_vertiport() {
    let vertiport_id = Uuid::new_v4().to_string();
    let data: vertipad::Data = vertipad::mock::get_data_obj_for_vertiport(&vertiport_id);

    assert!(Uuid::parse_str(&data.vertiport_id).is_ok());
    assert_eq!(data.vertiport_id, vertiport_id);
    assert!(data.name.len() > 0);
    assert_eq!(data.enabled, true);
    assert_eq!(data.occupied, false);
    assert!(data.schedule.is_some());
    assert!(data.created_at.is_some());
    assert!(data.updated_at.is_some());
}

#[test]
fn samples_at_a_given_hour() {
    let now = 1_700_000_000 - 1_700_000_000 % 3600;
    for _ in 0..50 {
        let port = vertiport::mock::get_data_obj_at(now);
        let created = port.data.created_at.unwrap().seconds;
        assert!(created < now && created >= now - 1000 * 86400);
        assert_eq!(created % 300, 0);
        assert_eq!(port.data.updated_at, port.data.created_at);

        let pad = vertipad::mock::get_data_obj_for_vertiport_at("v-1", now);
        assert_eq!(pad.vertiport_id, "v-1");
        let created = pad.created_at.unwrap().seconds;
        assert!(created < now && created >= now - 1000 * 86400);
        assert_eq!(created % 300, 0);

        let vehicle = vehicle::mock::get_data_obj_at(now);
        let last = vehicle.last_maintenance.unwrap().seconds;
        let next = vehicle.next_maintenance.unwrap().seconds;
        assert!(last < now && last >= now - 1000 * 86400);
        assert!(next >= now && next < now + 1000 * 86400);
    }
}

#[test]
fn flight_plan_parcel_flags_follow_the_draws() {
    let data = flight_plan_parcel::mock::get_data_obj_from_draws(4, 7);
    assert!(data.acquire);
    assert!(!data.deliver);
    let row = flight_plan_parcel::mock::get_row_data_obj_from_draws(
        "f".to_string(),
        "p".to_string(),
        1,
        1998,
    );
    assert_eq!(row.flight_plan_id, "f");
    assert_eq!(row.parcel_id, "p");
    assert!(!row.acquire);
    assert!(row.deliver);
}

#[test]
fn flight_plan_samples_accept_wide_day_offsets() {
    let now = 1_700_000_000 - 1_700_000_000 % 3600;
    let sample = get_data_obj_at(now, -50_000_000, 50_000_000);
    let departure = sample.data.origin_timeslot_start.unwrap().seconds;
    assert!(departure >= now - 50_000_000 * 86400);
    assert!(departure < now + 50_000_000 * 86400);
}

#[test]
fn test_get_data_obj_for_parcel_scan_ids() {
    let parcel_id = Uuid::new_v4().to_string();
    let scanner_id = Uuid::new_v4().to_string();
    let data = parcel_scan::mock::get_data_obj_for_parcel_scan_ids(&parcel_id, &scanner_id);
    assert_eq!(data.parcel_id, parcel_id);
    assert_eq!(data.scanner_id, scanner_id);
    assert!(data.created_at.is_some());
}

#[test]
fn test_get_data_obj_for_parent_group() {
    let parent_group_id = Uuid::new_v4().to_string();
    let data: group::Data = get_data_obj_for_parent_group(&parent_group_id);

    assert!(data.name.len() > 0);
    assert!(data.description.len() > 0);
    assert!(data.parent_group_id.is_some());
    assert!(Uuid::parse_str(&data.parent_group_id.unwrap()).is_ok());
}

#[test]
fn test_get_data_obj_for_user_id() {
    let user_id = Uuid::new_v4().to_string();
    let data: parcel::Data = get_data_obj_for_user_id(&user_id);

    assert_eq!(data.user_id, user_id);
}

#[test]
fn test_get_row_data_obj() {
    let data: flight_plan_parcel::RowData = flight_plan_parcel::mock::get_row_data_obj();
    assert!(Uuid::parse_str(&data.flight_plan_id).is_ok());
    assert!(Uuid::parse_str(&data.parcel_id).is_ok());
}

#[test]
fn test_get_past_data_obj() {
    // Generate 100 random tests
    for _ in 1..100 {
        let past_data: flight_plan::Data = get_past_data_obj().data;

        let now = now_seconds();

        // Check flight_release_approval is set
        assert!(past_data.flight_release_approval.is_some());

        // Check approved_by is set
        assert!(past_data.approved_by.is_some());

        // Check scheduled_departure is set
        assert!(past_data.origin_timeslot_start.is_some());
        assert!(past_data.origin_timeslot_end.is_some());

        // Check scheduled_departure is in the past
        let scheduled_departure = past_data.origin_timeslot_start.unwrap().seconds;
        assert!(scheduled_departure < now);

        // Check actual_departure_time is set
        assert!(past_data.actual_departure_time.is_some());

        // Check actual_departure_time is in the past
        let actual_departure_time = past_data.actual_departure_time.unwrap().seconds;
        assert!(actual_departure_time < now);

        // Check scheduled_arrival is set
        assert!(past_data.target_timeslot_start.is_some());
        assert!(past_data.target_timeslot_end.is_some());

        // Check scheduled_arrival is in the past
        let scheduled_arrival = past_data.target_timeslot_end.unwrap().seconds;
        assert!(scheduled_arrival < now);

        // Check actual_arrival_time is set
        assert!(past_data.actual_arrival_time.is_some());

        // Check actual_arrival_time is in the past
        let actual_departure_time = past_data.actual_arrival_time.unwrap().seconds;
        assert!(actual_departure_time < now);

        // Check flight_status is FINISHED
        assert!(FlightStatus::try_from(past_data.flight_status) == Ok(FlightStatus::Finished));
    }
}

#[test]
fn test_get_future_data_obj() {
    // Generate 100 random tests
    for _ in 1..100 {
        let future_data: flight_plan::Data = get_future_data_obj().data;

        // Check scheduled_departure is in the future
        let now = now_seconds();
        let scheduled_departure = future_data.origin_timeslot_start.unwrap().seconds;
        assert!(scheduled_departure > now);

        // Check actual_departure_time is not set
        assert!(future_data.actual_departure_time.is_none());
    }
}

#[test]
fn test_get_future_data_boarding_obj() {
    let now = current_hour_seconds();
    let departure_date = now + 9 * 60;
    let arrival_date = now + 3600;
    let (
        flight_status,
        flight_release_approval,
        actual_departure_time,
        actual_arrival_time,
        approved_by,
    ) = _data_values_by_departure_and_arrival_date(departure_date, arrival_date, now);

    // Check flight_status is BOARDING
    assert!(flight_status == FlightStatus::Boarding);
    assert!(flight_release_approval.is_some());
    assert!(actual_departure_time.is_none());
    assert!(actual_arrival_time.is_none());
    assert!(approved_by.is_some());
}

#[test]
fn test_get_future_data_ready_obj() {
    let now = current_hour_seconds();
    let departure_date = now + 45 * 60;
    let arrival_date = now + 3600;
    let (
        flight_status,
        flight_release_approval,
        actual_departure_time,
        actual_arrival_time,
        approved_by,
    ) = _data_values_by_departure_and_arrival_date(departure_date, arrival_date, now);

    // Check flight_status is BOARDING
    assert!(flight_status == FlightStatus::Ready);
    assert!(flight_release_approval.is_some());
    assert!(actual_departure_time.is_none());
    assert!(actual_arrival_time.is_none());
    assert!(approved_by.is_some());
}

#[test]
fn flight_state_values_follow_the_schedule() {
    let now = 1_700_000_000 - 1_700_000_000 % 3600;

    // departed and arrived: finished, with actual times near the schedule
    let (status, release, departed, arrived, approver) =
        _data_values_by_departure_and_arrival_date(now - 7200, now - 3600, now);
    assert_eq!(status, FlightStatus::Finished);
    let departed = departed.unwrap().seconds;
    assert!(now - 7200 - 360 <= departed && departed < now - 7200 + 360);
    let arrived = arrived.unwrap().seconds;
    assert!(now - 3600 - 360 <= arrived && arrived < now - 3600 + 360);
    let release = release.unwrap().seconds;
    assert!(now - 7200 - 43200 < release && release <= now - 7200 - 60);
    assert!(Uuid::parse_str(&approver.unwrap()).is_ok());

    // departed, not arrived: in flight
    let (status, _, departed, arrived, _) =
        _data_values_by_departure_and_arrival_date(now - 60, now + 3600, now);
    assert_eq!(status, FlightStatus::InFlight);
    assert!(departed.is_some());
    assert!(arrived.is_none());

    // exactly ten minutes before departure: boarding
    let (status, release, _, _, _) =
        _data_values_by_departure_and_arrival_date(now + 600, now + 3600, now);
    assert_eq!(status, FlightStatus::Boarding);
    let release = release.unwrap().seconds;
    assert!(now - 11 * 3600 <= release && release <= now - 2 * 3600);

    // one hour and a half before departure: ready
    let (status, _, _, _, _) =
        _data_values_by_departure_and_arrival_date(now + 5400, now + 9000, now);
    assert_eq!(status, FlightStatus::Ready);

    // two hours before departure: draft, not released
    let (status, release, departed, arrived, approver) =
        _data_values_by_departure_and_arrival_date(now + 7200, now + 9000, now);
    assert_eq!(status, FlightStatus::Draft);
    assert!(release.is_none());
    assert!(departed.is_none());
    assert!(arrived.is_none());
    assert!(approver.is_none());
}

#[test]
fn flight_plan_samples_keep_their_schedule() {
    let now = 1_700_000_000 - 1_700_000_000 % 3600;
    for _ in 0..50 {
        let sample = get_data_obj_at(now, -3, 3);
        let data = sample.data;
        let departure = data.origin_timeslot_start.unwrap().seconds;
        let arrival = data.target_timeslot_end.unwrap().seconds;
        assert!(departure >= now - 3 * 86400 && departure < now + 3 * 86400);
        assert_eq!(departure % 300, now % 300);
        let hours = sample.flight_distance_meters as i64 / 1000 / sample.avg_speed;
        assert_eq!(arrival, departure + hours * 3600);
        assert_eq!(data.origin_timeslot_end.unwrap().seconds, departure + 60);
        assert_eq!(data.target_timeslot_start.unwrap().seconds, arrival - 60);
        assert_eq!(data.carrier_ack, data.flight_plan_submitted);
        let submitted = data.flight_plan_submitted.unwrap().seconds;
        assert_eq!((departure - submitted) % 86400, 0);
        assert!(departure - submitted >= 86400 && departure - submitted <= 89 * 86400);
        assert_eq!(data.session_id, "AETH00001");
        assert_eq!(data.weather_conditions.as_deref(), Some("cold and windy"));
        assert_eq!(data.flight_priority, flight_plan::FlightPriority::Low.value());
    }
}
