use svc_storage::memsearch::FieldValue;
use svc_storage::memstore::{LinkedRow, LinkedStore, MemLinks, MemStore, StoreError};
use svc_storage::resources::pilot;
use uuid::Uuid;

fn pilot_named(first: &str) -> pilot::Data {
    pilot::Data {
        first_name: first.to_string(),
        last_name: "Doe".to_string(),
    }
}

#[test]
fn insert_then_get_returns_the_object() {
    let mut store: MemStore<pilot::Data> = MemStore::new();
    let id = store.insert(pilot_named("Ann"));
    assert!(Uuid::parse_str(&id).is_ok());
    assert_eq!(store.len(), 1);
    let found = store.get_by_id(&id, "pilot").unwrap();
    assert_eq!(found.id, id);
    assert_eq!(found.data, Some(pilot_named("Ann")));

    let other = store.insert(pilot_named("Bob"));
    assert_ne!(other, id);
    assert_eq!(store.get_by_id(&id, "pilot").unwrap().data, Some(pilot_named("Ann")));
    assert_eq!(store.get_by_id(&other, "pilot").unwrap().data, Some(pilot_named("Bob")));
    assert_eq!(store.objects().len(), 2);
    assert_eq!(store.object_at(1).id, other);
}

#[test]
fn get_of_an_unknown_id_names_resource_and_id() {
    let store: MemStore<pilot::Data> = MemStore::new();
    match store.get_by_id("nope", "pilot") {
        Err(e) => assert_eq!(
            e,
            StoreError::NotFound("No [pilot] found for specified uuid: nope".to_string())
        ),
        Ok(_) => panic!("found an object in an empty store"),
    }
}

#[test]
fn update_replaces_the_data() {
    let mut store: MemStore<pilot::Data> = MemStore::new();
    let first = store.insert(pilot_named("Ann"));
    let second = store.insert(pilot_named("Bob"));
    assert_eq!(store.update(&second, Some(pilot_named("Bea"))), Ok(1));
    assert_eq!(store.get_by_id(&second, "pilot").unwrap().data, Some(pilot_named("Bea")));
    assert_eq!(store.get_by_id(&first, "pilot").unwrap().data, Some(pilot_named("Ann")));

    assert_eq!(
        store.update(&first, None),
        Err(StoreError::InvalidArgument("No update data given.".to_string()))
    );
    assert_eq!(store.get_by_id(&first, "pilot").unwrap().data, Some(pilot_named("Ann")));
    assert_eq!(
        store.update("unknown", Some(pilot_named("X"))),
        Err(StoreError::NotFound("Not found".to_string()))
    );
    assert_eq!(
        store.update("unknown", None),
        Err(StoreError::NotFound("Not found".to_string()))
    );
}

#[test]
fn delete_removes_the_object_and_keeps_the_others() {
    let mut store: MemStore<pilot::Data> = MemStore::new();
    let a = store.insert(pilot_named("Ann"));
    let b = store.insert(pilot_named("Bob"));
    let c = store.insert(pilot_named("Cid"));
    store.delete(&b);
    assert_eq!(store.len(), 2);
    assert!(store.get_by_id(&b, "pilot").is_err());
    assert_eq!(store.object_at(0).id, a);
    assert_eq!(store.object_at(1).id, c);
    // deleting again, or an unknown id, changes nothing
    store.delete(&b);
    store.delete("unknown");
    assert_eq!(store.len(), 2);
}

#[test]
fn links_append_replace_and_clear() {
    let mut vertiports: MemStore<pilot::Data> = MemStore::new();
    let id = vertiports.insert(pilot_named("Ann"));
    let mut links = MemLinks::new();
    assert!(links.get_linked_ids(&id).is_empty());

    links
        .link(&id, Some(vec!["x".to_string(), "y".to_string()]), &vertiports, "$link_service")
        .unwrap();
    links.link(&id, Some(vec!["z".to_string()]), &vertiports, "$link_service").unwrap();
    assert_eq!(links.get_linked_ids(&id), vec!["x", "y", "z"]);

    links.replace_linked(&id, Some(vec!["w".to_string()]), &vertiports, "$link_service").unwrap();
    assert_eq!(links.get_linked_ids(&id), vec!["w"]);

    links.unlink(&id, &vertiports, "$link_service").unwrap();
    assert!(links.get_linked_ids(&id).is_empty());
}

#[test]
fn link_refusals() {
    let mut resources: MemStore<pilot::Data> = MemStore::new();
    let id = resources.insert(pilot_named("Ann"));
    let mut links = MemLinks::new();
    assert_eq!(
        links.link(&id, None, &resources, "$link_service"),
        Err(StoreError::InvalidArgument("No other_id_list found in request.".to_string()))
    );
    assert_eq!(
        links.link("missing", Some(vec![]), &resources, "$link_service"),
        Err(StoreError::NotFound(
            "No [$link_service] found for specified uuid: missing".to_string()
        ))
    );
    assert_eq!(
        links.unlink("missing", &resources, "$link_service"),
        Err(StoreError::NotFound(
            "No [$link_service] found for specified uuid: missing".to_string()
        ))
    );
    assert!(links.get_linked_ids(&id).is_empty());
}

#[test]
fn get_linked_returns_positions_of_linked_objects() {
    let mut vertiports: MemStore<pilot::Data> = MemStore::new();
    let mut vertipads: MemStore<pilot::Data> = MemStore::new();
    let port = vertiports.insert(pilot_named("Port"));
    let pad1 = vertipads.insert(pilot_named("Pad1"));
    let _pad2 = vertipads.insert(pilot_named("Pad2"));
    let pad3 = vertipads.insert(pilot_named("Pad3"));
    let mut links = MemLinks::new();

    // no links yet: nothing
    assert_eq!(links.get_linked(&port, &vertiports, &vertipads, "$link_service"), Ok(vec![]));

    links
        .link(&port, Some(vec![pad3.clone(), pad1.clone()]), &vertiports, "$link_service")
        .unwrap();
    // positions come in the order the objects are stored
    assert_eq!(links.get_linked(&port, &vertiports, &vertipads, "$link_service"), Ok(vec![0, 2]));

    links
        .replace_linked(&port, Some(vec!["gone".to_string()]), &vertiports, "$link_service")
        .unwrap();
    assert_eq!(
        links.get_linked(&port, &vertiports, &vertipads, "$link_service"),
        Err(StoreError::NotFound(format!(
            "No [$link_service] found for specified uuid: {}",
            port
        )))
    );
    assert_eq!(
        links.get_linked("missing", &vertiports, &vertipads, "$link_service"),
        Err(StoreError::NotFound(
            "No [$link_service] found for specified uuid: missing".to_string()
        ))
    );
}

fn ids(resource: &str, other: &str) -> Vec<FieldValue> {
    vec![
        FieldValue {
            field: "flight_plan_id".to_string(),
            value: resource.to_string(),
        },
        FieldValue {
            field: "parcel_id".to_string(),
            value: other.to_string(),
        },
    ]
}

fn row(resource: &str, other: &str, acquire: bool) -> LinkedRow<bool> {
    LinkedRow {
        resource_id: resource.to_string(),
        other_resource_id: other.to_string(),
        data: acquire,
    }
}

#[test]
fn linked_rows_insert_get_update() {
    let mut store: LinkedStore<bool> = LinkedStore::new();
    store.insert(row("f1", "p1", true));
    store.insert(row("f1", "p2", false));
    let found = store.get_by_id(&ids("f1", "p2"), "flight_plan_id", "parcel_id").unwrap();
    assert!(!found.data);
    assert!(store.get_by_id(&ids("f2", "p2"), "flight_plan_id", "parcel_id").is_none());

    assert_eq!(store.update(&ids("f1", "p2"), "flight_plan_id", "parcel_id", true), Ok(1));
    assert!(store.get_by_id(&ids("f1", "p2"), "flight_plan_id", "parcel_id").unwrap().data);
    assert_eq!(
        store.update(&ids("f9", "p9"), "flight_plan_id", "parcel_id", true),
        Err(StoreError::NotFound("Not found".to_string()))
    );
    // the last entry of a name counts
    let mut repeated = ids("f9", "p9");
    repeated.extend(ids("f1", "p1"));
    assert!(store.get_by_id(&repeated, "flight_plan_id", "parcel_id").unwrap().data);
}

#[test]
fn linked_rows_delete_removes_rows_sharing_either_id() {
    let mut store: LinkedStore<bool> = LinkedStore::new();
    store.insert(row("f1", "p1", true));
    store.insert(row("f1", "p2", true));
    store.insert(row("f2", "p1", true));
    store.insert(row("f2", "p2", true));
    store.insert(row("f3", "p3", true));
    store.delete(&ids("f1", "p1"), "flight_plan_id", "parcel_id");
    let left: Vec<(String, String)> = store
        .rows()
        .iter()
        .map(|r| (r.resource_id.clone(), r.other_resource_id.clone()))
        .collect();
    assert_eq!(
        left,
        vec![
            ("f2".to_string(), "p2".to_string()),
            ("f3".to_string(), "p3".to_string())
        ]
    );
}
