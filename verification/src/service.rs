//! The answers that the database-backed services give, decided from what
//! the database returned: which status a failure gets, and when a created or
//! updated resource is handed back.

use vstd::prelude::*;
use crate::memstore::{uuid_message, StoredObject};
use crate::platform::{check_uuid, uuid_parse_error};
use crate::search::{AdvancedSearchFilter, AdvancedSearchFilterView, PredicateOperator};
use crate::text::join_text;

verus! {

/// The gRPC status codes the services answer with.
#[derive(Debug, Clone, Copy, PartialEq, Eq, Structural)]
pub enum StatusCode {
    /// the resource does not exist
    NotFound,
    /// something failed on the server's side
    Internal,
    /// the request was withdrawn for lack of data
    Cancelled,
}

/// A refused request: its status code and message.
#[derive(Debug, Clone, PartialEq, Eq)]
pub struct ServiceError {
    /// the status code
    pub code: StatusCode,
    /// the message
    pub message: String,
}

/// One validation failure: the field and what is wrong with it.
#[derive(Debug, Clone, PartialEq, Eq)]
pub struct ValidationError {
    /// the field
    pub field: String,
    /// what is wrong with it
    pub error: String,
}

/// The outcome of validating data before it is stored.
#[derive(Debug, Clone, PartialEq, Eq)]
pub struct ValidationResult {
    /// whether the data passed
    pub success: bool,
    /// the failures found
    pub errors: Vec<ValidationError>,
}

/// What an insert or update answers: the validation outcome, and the stored
/// resource where there is one.
#[derive(Debug)]
pub struct ResourceResult<D> {
    /// the validation outcome
    pub validation_result: ValidationResult,
    /// the stored resource, if any
    pub resource: Option<StoredObject<D>>,
}

/// A refusal with a fixed message.
pub open spec fn refused(e: ServiceError, code: StatusCode, message: Seq<char>) -> bool {
    e.code == code && e.message@ == message
}

/// The answer to an insert, from what the database returned for it: its
/// error, or the new identifier (if it gave one) and the validation
/// outcome. Failed validation is answered with the outcome and no
/// resource; passed validation with the resource under its new identifier,
/// and is an internal error where no identifier came back.
pub fn insert_response<D>(data: D, created: Result<(Option<String>, ValidationResult), String>) -> (r:
    Result<ResourceResult<D>, ServiceError>)
    ensures
        match created {
            Err(_) => r is Err && refused(
                r->Err_0,
                StatusCode::Internal,
                "Insert failed, we got an error from the database"@,
            ),
            Ok((id, vr)) => if !vr.success {
                r is Ok && r->Ok_0.validation_result == vr && r->Ok_0.resource is None
            } else {
                match id {
                    Some(id) => r is Ok && r->Ok_0.validation_result == vr && r->Ok_0.resource
                        == Some(StoredObject { id, data: Some(data) }),
                    None => r is Err && refused(r->Err_0, StatusCode::Internal, "Internal server error"@),
                }
            },
        },
{
    match created {
        Err(_) => Err(
            ServiceError {
                code: StatusCode::Internal,
                message: "Insert failed, we got an error from the database".to_string(),
            },
        ),
        Ok((id, validation_result)) => {
            if validation_result.success {
                match id {
                    Some(id) => Ok(
                        ResourceResult {
                            validation_result,
                            resource: Some(StoredObject { id, data: Some(data) }),
                        },
                    ),
                    None => Err(
                        ServiceError {
                            code: StatusCode::Internal,
                            message: "Internal server error".to_string(),
                        },
                    ),
                }
            } else {
                Ok(ResourceResult { validation_result, resource: None })
            }
        },
    }
}

/// The message for an update request without data.
pub open spec fn no_update_data(id: Seq<char>) -> Seq<char> {
    "No data provided for update with id: "@ + id
}

/// Checks an update request before the database is asked: it must carry
/// data; without, it is cancelled with a message naming the identifier.
pub fn update_request<D>(id: &str, data: Option<D>) -> (r: Result<D, ServiceError>)
    ensures
        match data {
            Some(d) => r == Ok::<D, ServiceError>(d),
            None => r is Err && refused(r->Err_0, StatusCode::Cancelled, no_update_data(id@)),
        },
{
    match data {
        Some(d) => Ok(d),
        None => {
            proof {
                reveal_strlit("No data provided for update with id: ");
            }
            Err(
                ServiceError {
                    code: StatusCode::Cancelled,
                    message: join_text("No data provided for update with id: ", id),
                },
            )
        },
    }
}

/// The answer to an update, from what the database returned for it: its
/// error, or the stored data (where the update was made) and the
/// validation outcome.
pub fn update_response<D>(id: String, updated: Result<(Option<D>, ValidationResult), String>) -> (r:
    Result<ResourceResult<D>, ServiceError>)
    ensures
        match updated {
            Err(_) => r is Err && refused(
                r->Err_0,
                StatusCode::Internal,
                "Update failed, we got an error from the database"@,
            ),
            Ok((data, vr)) => r is Ok && r->Ok_0.validation_result == vr && match data {
                Some(d) => r->Ok_0.resource == Some(StoredObject { id, data: Some(d) }),
                None => r->Ok_0.resource is None,
            },
        },
{
    match updated {
        Err(_) => Err(
            ServiceError {
                code: StatusCode::Internal,
                message: "Update failed, we got an error from the database".to_string(),
            },
        ),
        Ok((data, validation_result)) => match data {
            Some(d) => Ok(
                ResourceResult { validation_result, resource: Some(StoredObject { id, data: Some(d) }) },
            ),
            None => Ok(ResourceResult { validation_result, resource: None }),
        },
    }
}

/// The answer to a fetch by identifier: the resource, or not found where
/// the database found none.
pub fn get_by_id_response<D>(id: String, fetched: Result<D, String>) -> (r: Result<
    StoredObject<D>,
    ServiceError,
>)
    ensures
        match fetched {
            Ok(d) => r == Ok::<StoredObject<D>, ServiceError>(StoredObject { id, data: Some(d) }),
            Err(_) => r is Err && refused(
                r->Err_0,
                StatusCode::NotFound,
                "Could not find any resource for the provided id"@,
            ),
        },
{
    match fetched {
        Ok(d) => Ok(StoredObject { id, data: Some(d) }),
        Err(_) => Err(
            ServiceError {
                code: StatusCode::NotFound,
                message: "Could not find any resource for the provided id".to_string(),
            },
        ),
    }
}

/// The answer to a search: the rows, or an internal error where the
/// database failed.
pub fn search_response<L>(rows: Result<L, String>) -> (r: Result<L, ServiceError>)
    ensures
        match rows {
            Ok(l) => r == Ok::<L, ServiceError>(l),
            Err(_) => r is Err && refused(
                r->Err_0,
                StatusCode::Internal,
                "Something went wrong trying to retrieve values from the database"@,
            ),
        },
{
    match rows {
        Ok(l) => Ok(l),
        Err(_) => Err(
            ServiceError {
                code: StatusCode::Internal,
                message: "Something went wrong trying to retrieve values from the database".to_string(),
            },
        ),
    }
}

/// Why the database did not delete a record: there was none to delete, or
/// it failed; each with the database's message.
#[derive(Debug, Clone, PartialEq, Eq)]
pub enum DeleteFailure {
    /// no record was found for the identifiers
    NoRecord(String),
    /// the database call failed
    Database(String),
}

/// The answer to a delete: done; not found where the database found no
/// record to delete; an internal error where the database failed. Both
/// failures carry the same message.
pub fn delete_response(deleted: Result<(), DeleteFailure>) -> (r: Result<(), ServiceError>)
    ensures
        match deleted {
            Ok(()) => r is Ok,
            Err(DeleteFailure::NoRecord(_)) => r is Err && refused(
                r->Err_0,
                StatusCode::NotFound,
                "Delete failed, we got an error from the database"@,
            ),
            Err(DeleteFailure::Database(_)) => r is Err && refused(
                r->Err_0,
                StatusCode::Internal,
                "Delete failed, we got an error from the database"@,
            ),
        },
{
    match deleted {
        Ok(()) => Ok(()),
        Err(DeleteFailure::NoRecord(_)) => Err(
            ServiceError {
                code: StatusCode::NotFound,
                message: "Delete failed, we got an error from the database".to_string(),
            },
        ),
        Err(DeleteFailure::Database(_)) => Err(
            ServiceError {
                code: StatusCode::Internal,
                message: "Delete failed, we got an error from the database".to_string(),
            },
        ),
    }
}

/// What an insert or update of a link row with data answers: the
/// validation outcome, and the row where it was stored.
#[derive(Debug)]
pub struct LinkedResult<D> {
    /// the validation outcome
    pub validation_result: ValidationResult,
    /// the stored row, if any
    pub resource: Option<D>,
}

/// The message of an internal error whose details stay in the log.
pub open spec fn internal_message() -> Seq<char> {
    "error"@
}

/// The answer to an insert of a link row with data, from what the database
/// returned: its error (answered as an internal error, details withheld),
/// or the validation outcome, with the row where it passed.
pub fn linked_insert_response<D>(row: D, created: Result<ValidationResult, String>) -> (r: Result<
    LinkedResult<D>,
    ServiceError,
>)
    ensures
        match created {
            Err(_) => r is Err && refused(r->Err_0, StatusCode::Internal, internal_message()),
            Ok(vr) => r is Ok && r->Ok_0.validation_result == vr && if vr.success {
                r->Ok_0.resource == Some(row)
            } else {
                r->Ok_0.resource is None
            },
        },
{
    match created {
        Err(_) => Err(ServiceError { code: StatusCode::Internal, message: "error".to_string() }),
        Ok(validation_result) => {
            if validation_result.success {
                Ok(LinkedResult { validation_result, resource: Some(row) })
            } else {
                Ok(LinkedResult { validation_result, resource: None })
            }
        },
    }
}

/// The message for an update of a link row without data, naming the row's
/// identifiers as the resource renders them.
pub open spec fn no_linked_update_data(ids: Seq<char>) -> Seq<char> {
    "No data provided for update with ids: "@ + ids
}

/// Checks an update of a link row before the database is asked: it must
/// carry data; without, it is cancelled with a message naming the row's
/// identifiers (`ids`, as the resource renders them).
pub fn linked_update_request<D>(ids: &str, data: Option<D>) -> (r: Result<D, ServiceError>)
    ensures
        match data {
            Some(d) => r == Ok::<D, ServiceError>(d),
            None => r is Err && refused(r->Err_0, StatusCode::Cancelled, no_linked_update_data(ids@)),
        },
{
    match data {
        Some(d) => Ok(d),
        None => {
            proof {
                reveal_strlit("No data provided for update with ids: ");
            }
            Err(
                ServiceError {
                    code: StatusCode::Cancelled,
                    message: join_text("No data provided for update with ids: ", ids),
                },
            )
        },
    }
}

/// The answer to an update of a link row, from what the database returned:
/// its error (answered as an internal error, details withheld), or the
/// stored data (where the update was made) and the validation outcome.
pub fn linked_update_response<D>(updated: Result<(Option<D>, ValidationResult), String>) -> (r:
    Result<LinkedResult<D>, ServiceError>)
    ensures
        match updated {
            Err(_) => r is Err && refused(r->Err_0, StatusCode::Internal, internal_message()),
            Ok((data, vr)) => r is Ok && r->Ok_0.validation_result == vr && r->Ok_0.resource
                == data,
        },
{
    match updated {
        Err(_) => Err(ServiceError { code: StatusCode::Internal, message: "error".to_string() }),
        Ok((data, validation_result)) => Ok(LinkedResult { validation_result, resource: data }),
    }
}

/// The message for identifiers for which no resource exists, naming them
/// as the request renders them.
pub open spec fn no_resource_for(ids: Seq<char>) -> Seq<char> {
    "No resource found for specified uuids: "@ + ids
}

/// The answer to a fetch of a link row by its identifiers (`ids`, as the
/// request renders them): the row, or not found where the database found
/// none.
pub fn linked_get_by_id_response<D>(ids: &str, fetched: Result<D, String>) -> (r: Result<
    D,
    ServiceError,
>)
    ensures
        match fetched {
            Ok(d) => r == Ok::<D, ServiceError>(d),
            Err(_) => r is Err && refused(r->Err_0, StatusCode::NotFound, no_resource_for(ids@)),
        },
{
    match fetched {
        Ok(d) => Ok(d),
        Err(_) => {
            proof {
                reveal_strlit("No resource found for specified uuids: ");
            }
            Err(
                ServiceError {
                    code: StatusCode::NotFound,
                    message: join_text("No resource found for specified uuids: ", ids),
                },
            )
        },
    }
}

/// The answer to a database call whose error is passed on: its result, or
/// an internal error with the database's message. Searching link rows,
/// fetching the linked objects and deleting links answer this way.
pub fn internal_on_error<T>(result: Result<T, String>) -> (r: Result<T, ServiceError>)
    ensures
        match result {
            Ok(v) => r == Ok::<T, ServiceError>(v),
            Err(e) => r is Err && refused(r->Err_0, StatusCode::Internal, e@),
        },
{
    match result {
        Ok(v) => Ok(v),
        Err(e) => Err(ServiceError { code: StatusCode::Internal, message: e }),
    }
}

/// The answer to a delete of a link row: done; not found where the database
/// found no record to delete; an internal error where it failed; each
/// failure with the database's message.
pub fn linked_delete_response(deleted: Result<(), DeleteFailure>) -> (r: Result<(), ServiceError>)
    ensures
        match deleted {
            Ok(()) => r is Ok,
            Err(DeleteFailure::NoRecord(e)) => r is Err && refused(r->Err_0, StatusCode::NotFound, e@),
            Err(DeleteFailure::Database(e)) => r is Err && refused(r->Err_0, StatusCode::Internal, e@),
        },
{
    match deleted {
        Ok(()) => Ok(()),
        Err(DeleteFailure::NoRecord(e)) => Err(ServiceError { code: StatusCode::NotFound, message: e }),
        Err(DeleteFailure::Database(e)) => Err(ServiceError { code: StatusCode::Internal, message: e }),
    }
}

/// Checks an unlink before the links are deleted: the object (`id`, as the
/// request renders it) must exist; where it does not, the unlink is
/// answered with not found.
pub fn unlink_request(id: &str, resource_found: bool) -> (r: Result<(), ServiceError>)
    ensures
        resource_found ==> r is Ok,
        !resource_found ==> r is Err && refused(r->Err_0, StatusCode::NotFound, no_resource_for(id@)),
{
    if resource_found {
        Ok(())
    } else {
        proof {
            reveal_strlit("No resource found for specified uuids: ");
        }
        Err(
            ServiceError {
                code: StatusCode::NotFound,
                message: join_text("No resource found for specified uuids: ", id),
            },
        )
    }
}

/// The message for an object that does not exist, naming its identifier.
pub open spec fn no_resource_for_id(id: Seq<char>) -> Seq<char> {
    "No resource found for specified uuid: "@ + id
}

/// The search for the links of object `id`: where the object exists, the
/// rows whose `id_field` equals its identifier; where it does not, not
/// found naming the identifier.
pub fn linked_ids_request(id_field: String, id: String, resource_found: bool) -> (r: Result<
    AdvancedSearchFilter,
    ServiceError,
>)
    ensures
        resource_found ==> r is Ok && r->Ok_0@ == AdvancedSearchFilterView::started(
            id_field@,
            seq![id@],
            PredicateOperator::Equals,
        ),
        !resource_found ==> r is Err && refused(r->Err_0, StatusCode::NotFound, no_resource_for_id(id@)),
{
    if resource_found {
        Ok(AdvancedSearchFilter::search_equals(id_field, id))
    } else {
        proof {
            reveal_strlit("No resource found for specified uuid: ");
        }
        Err(
            ServiceError {
                code: StatusCode::NotFound,
                message: join_text("No resource found for specified uuid: ", id.as_str()),
            },
        )
    }
}

/// The answer to the search for the linked identifiers: the identifiers
/// the rows name, or an internal error (details withheld) where the
/// database failed.
pub fn linked_ids_response(rows: Result<Vec<String>, String>) -> (r: Result<Vec<String>, ServiceError>)
    ensures
        match rows {
            Ok(ids) => r == Ok::<Vec<String>, ServiceError>(ids),
            Err(_) => r is Err && refused(r->Err_0, StatusCode::Internal, internal_message()),
        },
{
    match rows {
        Ok(ids) => Ok(ids),
        Err(_) => Err(ServiceError { code: StatusCode::Internal, message: "error".to_string() }),
    }
}

/// One row to write into a link table: the identifier field of each side
/// with its identifier.
#[derive(Debug, Clone, PartialEq, Eq)]
pub struct LinkIds {
    /// id field of the first resource
    pub id_field: String,
    /// identifier of the object of the first resource
    pub id: String,
    /// id field of the second resource
    pub other_id_field: String,
    /// identifier of the object of the second resource
    pub other_id: String,
}

/// The rows that linking object `id` to each of `other_ids` writes, one per
/// other identifier, in order; and, where the links replace the existing
/// ones, the field and identifier whose rows are cleared first.
pub fn link_rows(
    id_field: &str,
    other_id_field: &str,
    id: &str,
    other_ids: &Vec<String>,
    replace: bool,
) -> (r: (Vec<LinkIds>, Option<(String, String)>))
    ensures
        r.0@.len() == other_ids@.len(),
        forall|k: int|
            0 <= k < other_ids@.len() ==> (#[trigger] r.0@[k]).id_field@ == id_field@ && r.0@[k].id@
                == id@ && r.0@[k].other_id_field@ == other_id_field@ && r.0@[k].other_id@
                == other_ids@[k]@,
        match r.1 {
            Some((f, v)) => replace && f@ == id_field@ && v@ == id@,
            None => !replace,
        },
{
    let mut rows: Vec<LinkIds> = Vec::new();
    let mut k: usize = 0;
    while k < other_ids.len()
        invariant
            k <= other_ids@.len(),
            rows@.len() == k,
            forall|j: int|
                0 <= j < k ==> (#[trigger] rows@[j]).id_field@ == id_field@ && rows@[j].id@ == id@
                    && rows@[j].other_id_field@ == other_id_field@ && rows@[j].other_id@
                    == other_ids@[j]@,
        decreases other_ids@.len() - k,
    {
        rows.push(
            LinkIds {
                id_field: id_field.to_string(),
                id: id.to_string(),
                other_id_field: other_id_field.to_string(),
                other_id: other_ids[k].clone(),
            },
        );
        k = k + 1;
    }
    let clear = if replace {
        Some((id_field.to_string(), id.to_string()))
    } else {
        None
    };
    (rows, clear)
}

/// The rows that a link request writes, as [`link_rows`] gives them, once
/// the object's identifier reads as a UUID; an identifier that does not is
/// refused as an internal error naming the identifier and the parse error.
pub fn link_request(
    id_field: &str,
    other_id_field: &str,
    id: &str,
    other_ids: &Vec<String>,
    replace: bool,
) -> (r: Result<(Vec<LinkIds>, Option<(String, String)>), ServiceError>)
    ensures
        match uuid_parse_error(id@) {
            Some(e) => r is Err && refused(r->Err_0, StatusCode::Internal, uuid_message(id@, e)),
            None => r is Ok && r->Ok_0.0@.len() == other_ids@.len() && (forall|k: int|
                0 <= k < other_ids@.len() ==> (#[trigger] r->Ok_0.0@[k]).id_field@ == id_field@
                    && r->Ok_0.0@[k].id@ == id@ && r->Ok_0.0@[k].other_id_field@ == other_id_field@
                    && r->Ok_0.0@[k].other_id@ == other_ids@[k]@) && match r->Ok_0.1 {
                Some((f, v)) => replace && f@ == id_field@ && v@ == id@,
                None => !replace,
            },
        },
{
    match check_uuid(id) {
        Err(e) => {
            proof {
                reveal_strlit("Could not convert provided id String [");
                reveal_strlit("] into uuid: ");
            }
            let head = join_text("Could not convert provided id String [", id);
            let mid = join_text(head.as_str(), "] into uuid: ");
            Err(ServiceError { code: StatusCode::Internal, message: join_text(mid.as_str(), e.as_str()) })
        },
        Ok(()) => Ok(link_rows(id_field, other_id_field, id, other_ids, replace)),
    }
}

} // verus!
