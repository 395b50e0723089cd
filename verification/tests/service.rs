use svc_storage::memstore::StoredObject;
use svc_storage::search::PredicateOperator;
use svc_storage::service::{
    internal_on_error, linked_delete_response, linked_get_by_id_response, linked_ids_request,
    linked_ids_response, linked_insert_response, linked_update_request, linked_update_response,
    unlink_request, DeleteFailure,
};
use svc_storage::service::{
    delete_response, get_by_id_response, insert_response, link_request, link_rows, search_response,
    update_request, update_response, StatusCode, ValidationError, ValidationResult,
};

fn passed() -> ValidationResult {
    ValidationResult {
        success: true,
        errors: vec![],
    }
}

fn failed() -> ValidationResult {
    ValidationResult {
        success: false,
        errors: vec![ValidationError {
            field: "name".to_string(),
            error: "empty".to_string(),
        }],
    }
}

#[test]
fn insert_answers() {
    let r = insert_response(7u32, Ok((Some("id-1".to_string()), passed()))).unwrap();
    assert_eq!(r.validation_result, passed());
    let resource = r.resource.unwrap();
    assert_eq!(resource.id, "id-1");
    assert_eq!(resource.data, Some(7));

    let r = insert_response(7u32, Ok((Some("id-1".to_string()), failed()))).unwrap();
    assert_eq!(r.validation_result, failed());
    assert!(r.resource.is_none());

    let e = insert_response(7u32, Ok((None, passed()))).err().unwrap();
    assert_eq!(e.code, StatusCode::Internal);
    assert_eq!(e.message, "Internal server error");

    let e = insert_response(7u32, Err("boom".to_string())).err().unwrap();
    assert_eq!(e.code, StatusCode::Internal);
    assert_eq!(e.message, "Insert failed, we got an error from the database");
}

#[test]
fn update_answers() {
    assert_eq!(update_request("id-1", Some(3u8)), Ok(3));
    let e = update_request::<u8>("id-1", None).unwrap_err();
    assert_eq!(e.code, StatusCode::Cancelled);
    assert_eq!(e.message, "No data provided for update with id: id-1");

    let r = update_response("id-1".to_string(), Ok((Some(4u8), passed()))).unwrap();
    assert_eq!(r.validation_result, passed());
    let resource: StoredObject<u8> = r.resource.unwrap();
    assert_eq!(resource.id, "id-1");
    assert_eq!(resource.data, Some(4));

    let r = update_response::<u8>("id-1".to_string(), Ok((None, failed()))).unwrap();
    assert!(r.resource.is_none());
    assert_eq!(r.validation_result, failed());

    let e = update_response::<u8>("id-1".to_string(), Err("boom".to_string()))
        .err()
        .unwrap();
    assert_eq!(e.code, StatusCode::Internal);
    assert_eq!(e.message, "Update failed, we got an error from the database");
}

#[test]
fn fetch_search_and_delete_answers() {
    let found = get_by_id_response("id-1".to_string(), Ok(5i64)).unwrap();
    assert_eq!(found.id, "id-1");
    assert_eq!(found.data, Some(5));
    let e = get_by_id_response::<i64>("id-1".to_string(), Err("none".to_string())).unwrap_err();
    assert_eq!(e.code, StatusCode::NotFound);
    assert_eq!(e.message, "Could not find any resource for the provided id");

    assert_eq!(search_response(Ok(vec![1, 2])), Ok(vec![1, 2]));
    let e = search_response::<Vec<i32>>(Err("x".to_string())).unwrap_err();
    assert_eq!(e.code, StatusCode::Internal);
    assert_eq!(
        e.message,
        "Something went wrong trying to retrieve values from the database"
    );

    assert!(delete_response(Ok(())).is_ok());
    let e = delete_response(Err(DeleteFailure::Database("x".to_string()))).unwrap_err();
    assert_eq!(e.code, StatusCode::Internal);
    assert_eq!(e.message, "Delete failed, we got an error from the database");
    let e = delete_response(Err(DeleteFailure::NoRecord("none".to_string()))).unwrap_err();
    assert_eq!(e.code, StatusCode::NotFound);
    assert_eq!(e.message, "Delete failed, we got an error from the database");
}

#[test]
fn link_rows_pair_the_id_with_each_other_id() {
    let others = vec!["p1".to_string(), "p2".to_string()];
    let (rows, clear) = link_rows("vertiport_id", "vertipad_id", "v1", &others, false);
    assert_eq!(rows.len(), 2);
    assert_eq!(rows[0].id_field, "vertiport_id");
    assert_eq!(rows[0].id, "v1");
    assert_eq!(rows[0].other_id_field, "vertipad_id");
    assert_eq!(rows[0].other_id, "p1");
    assert_eq!(rows[1].other_id, "p2");
    assert!(clear.is_none());

    let (rows, clear) = link_rows("vertiport_id", "vertipad_id", "v1", &vec![], true);
    assert!(rows.is_empty());
    assert_eq!(clear, Some(("vertiport_id".to_string(), "v1".to_string())));
}

#[test]
fn link_requests_check_the_id() {
    let id = "550e8400-e29b-41d4-a716-446655440000";
    let others = vec!["p1".to_string()];
    let (rows, clear) =
        link_request("vertiport_id", "vertipad_id", id, &others, true).unwrap();
    assert_eq!(rows.len(), 1);
    assert_eq!(rows[0].id, id);
    assert_eq!(rows[0].other_id, "p1");
    assert_eq!(clear, Some(("vertiport_id".to_string(), id.to_string())));

    let e = link_request("vertiport_id", "vertipad_id", "v1", &others, false).unwrap_err();
    assert_eq!(e.code, StatusCode::Internal);
    assert!(e.message.starts_with("Could not convert provided id String [v1] into uuid: "));
    assert!(e.message.len() > "Could not convert provided id String [v1] into uuid: ".len());
}

#[test]
fn link_requests_accept_every_uuid_form() {
    let others: Vec<String> = vec![];
    for id in [
        "550e8400e29b41d4a716446655440000",
        "550E8400-E29B-41D4-A716-446655440000",
        "{550e8400-e29b-41d4-a716-446655440000}",
        "URN:uuid:550e8400-e29b-41d4-a716-446655440000",
    ] {
        assert!(link_request("a_id", "b_id", id, &others, false).is_ok());
    }
    for id in [
        "550e8400-e29b-41d4-a716-44665544000g",
        "550e8400-e29b-41d4-a716_446655440000",
        "urn:uid:550e8400-e29b-41d4-a716-446655440000",
        "",
    ] {
        assert!(link_request("a_id", "b_id", id, &others, false).is_err());
    }
}

#[test]
fn linked_service_answers() {
    let r = linked_insert_response("row", Ok(passed())).unwrap();
    assert_eq!(r.resource, Some("row"));
    assert_eq!(r.validation_result, passed());
    let r = linked_insert_response("row", Ok(failed())).unwrap();
    assert!(r.resource.is_none());
    let e = linked_insert_response("row", Err("db".to_string())).err().unwrap();
    assert_eq!(e.code, StatusCode::Internal);
    assert_eq!(e.message, "error");

    assert_eq!(linked_update_request("[a, b]", Some(1u8)), Ok(1));
    let e = linked_update_request::<u8>("[a, b]", None).unwrap_err();
    assert_eq!(e.code, StatusCode::Cancelled);
    assert_eq!(e.message, "No data provided for update with ids: [a, b]");
    let r = linked_update_response(Ok((Some(2u8), passed()))).unwrap();
    assert_eq!(r.resource, Some(2));
    let r = linked_update_response::<u8>(Ok((None, failed()))).unwrap();
    assert!(r.resource.is_none());
    assert_eq!(r.validation_result, failed());
    let e = linked_update_response::<u8>(Err("db".to_string())).err().unwrap();
    assert_eq!(e.code, StatusCode::Internal);
    assert_eq!(e.message, "error");

    assert_eq!(linked_get_by_id_response("Ids", Ok(3)), Ok(3));
    let e = linked_get_by_id_response::<i32>("Ids { ids: [] }", Err("none".to_string())).unwrap_err();
    assert_eq!(e.code, StatusCode::NotFound);
    assert_eq!(e.message, "No resource found for specified uuids: Ids { ids: [] }");

    assert_eq!(internal_on_error(Ok(5)), Ok(5));
    let e = internal_on_error::<i32>(Err("lost".to_string())).unwrap_err();
    assert_eq!(e.code, StatusCode::Internal);
    assert_eq!(e.message, "lost");

    assert!(linked_delete_response(Ok(())).is_ok());
    let e = linked_delete_response(Err(DeleteFailure::NoRecord("no row".to_string()))).unwrap_err();
    assert_eq!(e.code, StatusCode::NotFound);
    assert_eq!(e.message, "no row");
    let e = linked_delete_response(Err(DeleteFailure::Database("down".to_string()))).unwrap_err();
    assert_eq!(e.code, StatusCode::Internal);
    assert_eq!(e.message, "down");
}

#[test]
fn unlink_and_linked_ids_answers() {
    assert!(unlink_request("Id { id: \"x\" }", true).is_ok());
    let e = unlink_request("Id { id: \"x\" }", false).unwrap_err();
    assert_eq!(e.code, StatusCode::NotFound);
    assert_eq!(e.message, "No resource found for specified uuids: Id { id: \"x\" }");

    let filter = linked_ids_request("vertiport_id".to_string(), "v1".to_string(), true).unwrap();
    assert_eq!(filter.filters.len(), 1);
    assert_eq!(filter.filters[0].search_field, "vertiport_id");
    assert_eq!(filter.filters[0].search_value, vec!["v1"]);
    assert_eq!(filter.filters[0].predicate_operator, PredicateOperator::Equals.value());
    let e = match linked_ids_request("vertiport_id".to_string(), "v1".to_string(), false) {
        Err(e) => e,
        Ok(_) => panic!("a missing resource was searched"),
    };
    assert_eq!(e.code, StatusCode::NotFound);
    assert_eq!(e.message, "No resource found for specified uuid: v1");

    assert_eq!(linked_ids_response(Ok(vec!["a".to_string()])), Ok(vec!["a".to_string()]));
    let e = linked_ids_response(Err("db".to_string())).unwrap_err();
    assert_eq!(e.code, StatusCode::Internal);
    assert_eq!(e.message, "error");
}
