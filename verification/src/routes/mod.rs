//! The decisions of the service's request handlers.
//!
//! Each handler alternates work on the database with decisions. The database
//! work happens outside this crate; here each decision is a function from what
//! the database answered to what happens next: another query, or the response.

use vstd::prelude::*;

pub mod costs;
pub mod groups;
pub mod login;
pub mod register;
pub mod tables;

verus! {

/// The HTTP statuses the service answers with.
#[derive(PartialEq, Eq, Structural, Clone, Copy, Debug)]
pub enum Status {
    Success,
    Created,
    BadRequest,
    Unauthorized,
    Forbidden,
    UnprocessableEntity,
    InternalServerError,
}

/// The numeric HTTP code of a status.
pub open spec fn status_code(status: Status) -> u16 {
    match status {
        Status::Success => 200,
        Status::Created => 201,
        Status::BadRequest => 400,
        Status::Unauthorized => 401,
        Status::Forbidden => 403,
        Status::UnprocessableEntity => 422,
        Status::InternalServerError => 500,
    }
}

impl Status {
    /// The numeric HTTP code of this status.
    pub fn code(&self) -> (code: u16)
        ensures
            code == status_code(*self),
    {
        match self {
            Status::Success => 200,
            Status::Created => 201,
            Status::BadRequest => 400,
            Status::Unauthorized => 401,
            Status::Forbidden => 403,
            Status::UnprocessableEntity => 422,
            Status::InternalServerError => 500,
        }
    }
}

/// How a database query failed: no row where one was expected, or anything else.
#[derive(PartialEq, Eq, Structural, Clone, Copy, Debug)]
pub enum DbError {
    NotFound,
    Other,
}

/// What a handler answers: a bare status, or a JSON body with status 200.
pub enum Outcome<T> {
    Respond(Status),
    Json(T),
}

/// What a handler does after a check: go on, or answer with a status.
#[derive(PartialEq, Eq, Structural, Clone, Copy, Debug)]
pub enum Step {
    Continue,
    Stop(Status),
}

/// A query whose failure makes the handler fail (status 500): its rows, or the
/// failure.
pub open spec fn rows_or_fail<X>(reply: Result<X, DbError>) -> Result<X, Status> {
    match reply {
        Ok(rows) => Ok(rows),
        Err(_) => Err(Status::InternalServerError),
    }
}

/// The answer of a handler whose last query is `reply` and whose body is its
/// rows: status 200 with the rows, or 500 when the query failed.
pub open spec fn rows_answer<X>(reply: Result<X, DbError>) -> Outcome<X> {
    match reply {
        Ok(rows) => Outcome::Json(rows),
        Err(_) => Outcome::Respond(Status::InternalServerError),
    }
}

} // verus!
