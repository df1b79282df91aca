//! The five routes: what each request asks of the store, and how the
//! outcome becomes a response.

use crate::collection::{after_delete, after_update, entry_of, has_id, lookup, Collection};
use crate::error::GatewayError;
use crate::object_id::{id_bytes_of, is_id_text};
use crate::student::{full_patch, Student, StudentPatch};
use vstd::prelude::*;

verus! {

/// Confirmation text of a create.
pub const ADDED_MESSAGE: &'static str = "Student added successfully";

/// Confirmation text of an update.
pub const UPDATED_MESSAGE: &'static str = "Student updated successfully";

/// Confirmation text of a delete.
pub const DELETED_MESSAGE: &'static str = "Student deleted successfully";

/// Status of a successful request.
pub const STATUS_OK: u16 = 200;

/// Status of a malformed identifier on update or delete.
pub const STATUS_BAD_REQUEST: u16 = 400;

/// Status of a record that is absent.
pub const STATUS_NOT_FOUND: u16 = 404;

/// Status of a store that could not do its part.
pub const STATUS_UNAVAILABLE: u16 = 503;

/// A request to one of the five routes.
#[derive(Debug)]
pub enum Request {
    /// `GET /students`
    List,
    /// `POST /students` with a student without identifier.
    Create(Student),
    /// `GET /students/{id}`
    Get(String),
    /// `PUT /students/{id}` with a student whose fields are all set.
    Update(String, Student),
    /// `DELETE /students/{id}`
    Delete(String),
}

/// What a response carries.
#[derive(Debug)]
pub enum Body {
    /// Nothing.
    Empty,
    /// Plain confirmation text.
    Text(&'static str),
    /// One student, as JSON.
    One(Student),
    /// A list of students, as a JSON array.
    Many(Vec<Student>),
}

/// A status code and a body.
#[derive(Debug)]
pub struct Response {
    pub status: u16,
    pub body: Body,
}

/// The status that reports `e`.
pub open spec fn error_status(e: GatewayError) -> u16 {
    match e {
        GatewayError::InvalidIdentifier => STATUS_BAD_REQUEST,
        GatewayError::NotFound => STATUS_NOT_FOUND,
        GatewayError::StorageUnavailable => STATUS_UNAVAILABLE,
    }
}

/// The response that reports `e`, without a body.
pub fn error_response(e: GatewayError) -> (r: Response)
    ensures
        r.status == error_status(e),
        r.body is Empty,
{
    let status = match e {
        GatewayError::InvalidIdentifier => STATUS_BAD_REQUEST,
        GatewayError::NotFound => STATUS_NOT_FOUND,
        GatewayError::StorageUnavailable => STATUS_UNAVAILABLE,
    };
    Response { status, body: Body::Empty }
}

/// The response to a list: the records as a JSON array.
pub fn list_response(outcome: Result<Vec<Student>, GatewayError>) -> (r: Response)
    ensures
        match outcome {
            Ok(v) => r.status == STATUS_OK && (r.body matches Body::Many(w) && w@ == v@),
            Err(e) => r.status == error_status(e) && r.body is Empty,
        },
{
    match outcome {
        Ok(v) => Response { status: STATUS_OK, body: Body::Many(v) },
        Err(e) => error_response(e),
    }
}

/// The response to a create: the confirmation text.
pub fn create_response<T>(outcome: Result<T, GatewayError>) -> (r: Response)
    ensures
        match outcome {
            Ok(_) => r.status == STATUS_OK && r.body == Body::Text(ADDED_MESSAGE),
            Err(e) => r.status == error_status(e) && r.body is Empty,
        },
{
    match outcome {
        Ok(_) => Response { status: STATUS_OK, body: Body::Text(ADDED_MESSAGE) },
        Err(e) => error_response(e),
    }
}

/// The response to a get. An absent record, and an identifier that is not
/// one, both give 404.
pub fn get_response(outcome: Result<Option<Student>, GatewayError>) -> (r: Response)
    ensures
        match outcome {
            Ok(Some(s)) => r.status == STATUS_OK && (r.body matches Body::One(t) && t@ == s@),
            Ok(None) => r.status == STATUS_NOT_FOUND && r.body is Empty,
            Err(GatewayError::StorageUnavailable) => r.status == STATUS_UNAVAILABLE && r.body is Empty,
            Err(_) => r.status == STATUS_NOT_FOUND && r.body is Empty,
        },
{
    match outcome {
        Ok(Some(s)) => Response { status: STATUS_OK, body: Body::One(s) },
        Ok(None) => Response { status: STATUS_NOT_FOUND, body: Body::Empty },
        Err(GatewayError::StorageUnavailable) => error_response(GatewayError::StorageUnavailable),
        Err(_) => Response { status: STATUS_NOT_FOUND, body: Body::Empty },
    }
}

/// The response to an update: the confirmation text.
pub fn update_response(outcome: Result<(), GatewayError>) -> (r: Response)
    ensures
        match outcome {
            Ok(_) => r.status == STATUS_OK && r.body == Body::Text(UPDATED_MESSAGE),
            Err(e) => r.status == error_status(e) && r.body is Empty,
        },
{
    match outcome {
        Ok(_) => Response { status: STATUS_OK, body: Body::Text(UPDATED_MESSAGE) },
        Err(e) => error_response(e),
    }
}

/// The response to a delete: the confirmation text.
pub fn delete_response(outcome: Result<(), GatewayError>) -> (r: Response)
    ensures
        match outcome {
            Ok(_) => r.status == STATUS_OK && r.body == Body::Text(DELETED_MESSAGE),
            Err(e) => r.status == error_status(e) && r.body is Empty,
        },
{
    match outcome {
        Ok(_) => Response { status: STATUS_OK, body: Body::Text(DELETED_MESSAGE) },
        Err(e) => error_response(e),
    }
}

/// Serves one request against `store`.
pub fn handle(store: &mut Collection, req: Request) -> (r: Response)
    requires
        old(store).wf(),
    ensures
        final(store).wf(),
        match req {
            Request::List => final(store)@ == old(store)@ && r.status == STATUS_OK && (
            r.body matches Body::Many(v) && v@.len() == old(store)@.len() && forall|i: int|
                0 <= i < v@.len() ==> (#[trigger] v@[i])@.id is Some && entry_of(v@[i]@) == old(
                    store,
                )@[i]),
            Request::Create(s) => if s@.id is Some {
                r.status == STATUS_BAD_REQUEST && r.body is Empty && final(store)@ == old(store)@
            } else {
                (r.status == STATUS_OK && r.body == Body::Text(ADDED_MESSAGE) && exists|k: Seq<u8>|
                    !#[trigger] has_id(old(store)@, k) && final(store)@ == old(store)@.push(
                        (k, s@.fields),
                    )) || (r.status == STATUS_UNAVAILABLE && r.body is Empty && final(store)@
                    == old(store)@ && old(store)@.len() > 0)
            },
            Request::Get(id) => final(store)@ == old(store)@ && if is_id_text(id@) && lookup(
                old(store)@,
                id_bytes_of(id@),
            ) is Some {
                r.status == STATUS_OK && (r.body matches Body::One(t) && t@.id == Some(
                    id_bytes_of(id@),
                ) && Some(t@.fields) == lookup(old(store)@, id_bytes_of(id@)))
            } else {
                r.status == STATUS_NOT_FOUND && r.body is Empty
            },
            Request::Update(id, s) => if is_id_text(id@) {
                r.status == STATUS_OK && r.body == Body::Text(UPDATED_MESSAGE) && final(store)@
                    == after_update(old(store)@, id_bytes_of(id@), full_patch(s@.fields))
            } else {
                r.status == STATUS_BAD_REQUEST && r.body is Empty && final(store)@ == old(store)@
            },
            Request::Delete(id) => if is_id_text(id@) {
                r.status == STATUS_OK && r.body == Body::Text(DELETED_MESSAGE) && final(store)@
                    == after_delete(old(store)@, id_bytes_of(id@))
            } else {
                r.status == STATUS_BAD_REQUEST && r.body is Empty && final(store)@ == old(store)@
            },
        },
{
    match req {
        Request::List => {
            let all = store.list();
            let ghost listed = all@;
            let r = list_response(Ok(all));
            assert(r.body matches Body::Many(v) && v@ == listed);
            r
        },
        Request::Create(s) => {
            let outcome = store.create(&s);
            match &outcome {
                Ok(k) => {
                    assert(!has_id(old(store)@, k@));
                },
                Err(_) => {},
            }
            create_response(outcome)
        },
        Request::Get(id) => get_response(Ok(store.get(id.as_str()))),
        Request::Update(id, s) => {
            let patch = StudentPatch::from_student(&s);
            update_response(store.update(id.as_str(), &patch))
        },
        Request::Delete(id) => delete_response(store.delete(id.as_str())),
    }
}

} // verus!
