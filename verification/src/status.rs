use vstd::prelude::*;

use crate::text::{contains_text, occurs_in};

verus! {

/// The HTTP statuses that the service answers with.
#[derive(Debug, Clone, Copy, PartialEq, Eq, Structural)]
pub enum Status {
    Success,
    Created,
    NoContent,
    BadRequest,
    Unauthorized,
    NotFound,
    Conflict,
    InternalServerError,
}

/// The numeric HTTP code of a status.
pub open spec fn status_code(s: Status) -> u16 {
    match s {
        Status::Success => 200,
        Status::Created => 201,
        Status::NoContent => 204,
        Status::BadRequest => 400,
        Status::Unauthorized => 401,
        Status::NotFound => 404,
        Status::Conflict => 409,
        Status::InternalServerError => 500,
    }
}

impl Status {
    /// The numeric HTTP code of this status.
    pub fn code(&self) -> (c: u16)
        ensures
            c == status_code(*self),
    {
        match self {
            Status::Success => 200,
            Status::Created => 201,
            Status::NoContent => 204,
            Status::BadRequest => 400,
            Status::Unauthorized => 401,
            Status::NotFound => 404,
            Status::Conflict => 409,
            Status::InternalServerError => 500,
        }
    }
}

/// A refused request: the status and the message sent back with it.
#[derive(Debug, Clone)]
pub struct ApiError {
    pub status: Status,
    pub message: String,
}

impl ApiError {
    pub fn new(status: Status, message: &str) -> (e: ApiError)
        ensures
            e.status == status,
            e.message@ == message@,
    {
        ApiError { status, message: message.to_string() }
    }
}


/// `r` is a refusal with status `s` carrying message `m`.
pub open spec fn refused<T>(r: Result<T, ApiError>, s: Status, m: Seq<char>) -> bool {
    r matches Err(e) && e.status == s && e.message@ == m
}

/// A lookup that must find its row: the row itself, or `404 Not Found`
/// carrying `not_found`.
pub fn found_or<T>(row: Option<T>, not_found: &str) -> (r: Result<T, ApiError>)
    ensures
        row matches Some(t) ==> r == Ok::<T, ApiError>(t),
        row is None ==> (r matches Err(e) && e.status == Status::NotFound && e.message@
            == not_found@),
{
    match row {
        Some(t) => Ok(t),
        None => Err(ApiError::new(Status::NotFound, not_found)),
    }
}

/// The answer to a delete that removed `rows_affected` rows: `204 No
/// Content` when a row went, `404 Not Found` carrying `not_found` when none
/// matched.
pub open spec fn delete_answer(rows_affected: int, not_found: Seq<char>, r: Result<Status, ApiError>) -> bool {
    if rows_affected == 0 {
        refused(r, Status::NotFound, not_found)
    } else {
        r == Ok::<Status, ApiError>(Status::NoContent)
    }
}

/// The answer to a delete: `204 No Content` when a row went, `404 Not Found`
/// carrying `not_found` when none matched.
pub fn delete_outcome(rows_affected: u64, not_found: &str) -> (r: Result<Status, ApiError>)
    ensures
        delete_answer(rows_affected as int, not_found@, r),
{
    if rows_affected == 0 {
        Err(ApiError::new(Status::NotFound, not_found))
    } else {
        Ok(Status::NoContent)
    }
}

/// The answer to a failed insert: a database message that names a unique
/// constraint means the row clashes with one already there (`409 Conflict`
/// carrying `conflict`); any other failure is `500` carrying the database
/// message.
pub fn insert_failure(db_message: &str, conflict: &str) -> (e: ApiError)
    ensures
        occurs_in(db_message@, "unique constraint"@) ==> e.status == Status::Conflict
            && e.message@ == conflict@,
        !occurs_in(db_message@, "unique constraint"@) ==> e.status
            == Status::InternalServerError && e.message@ == db_message@,
{
    if contains_text(db_message, "unique constraint") {
        ApiError::new(Status::Conflict, conflict)
    } else {
        ApiError::new(Status::InternalServerError, db_message)
    }
}

} // verus!
