//! The answers of the service: what it sends on success and on failure.
use crate::models::Data;
use vstd::prelude::*;

verus! {

/// One failure, with the HTTP status code that it is answered with.
#[derive(Debug, PartialEq, Eq)]
pub struct HTTPError {
    pub status_code: u16,
    pub message: String,
}

/// The body of a failed answer.
#[derive(Debug, PartialEq, Eq)]
pub struct Errors {
    pub errors: Vec<HTTPError>,
}

/// A failed answer.
#[derive(Debug, PartialEq, Eq)]
pub enum ErrorResponder {
    NotFound(Errors),
    Conflict(Errors),
    InternalServerError(Errors),
}

/// A successful answer.
#[derive(Debug, PartialEq, Eq)]
pub enum SuccessResponder<T> {
    Okay(T),
    Created(T),
    NoContent(()),
}

pub type HttpResult<T> = Result<SuccessResponder<Data<T>>, ErrorResponder>;

pub type EmptyHttpResult = Result<SuccessResponder<()>, ErrorResponder>;

impl Errors {
    /// True when the body holds one failure, with this code and this message.
    pub open spec fn is_single(&self, status_code: u16, message: Seq<char>) -> bool {
        &&& self.errors@.len() == 1
        &&& self.errors@[0].status_code == status_code
        &&& self.errors@[0].message@ == message
    }
}

impl ErrorResponder {
    /// The body of the answer.
    pub open spec fn body(&self) -> Errors {
        match *self {
            ErrorResponder::NotFound(body) => body,
            ErrorResponder::Conflict(body) => body,
            ErrorResponder::InternalServerError(body) => body,
        }
    }

    /// True for 404 Not Found with one failure that carries `message`.
    pub open spec fn is_not_found(&self, message: Seq<char>) -> bool {
        self is NotFound && self.body().is_single(404, message)
    }

    /// True for 409 Conflict with one failure that carries `message`.
    pub open spec fn is_conflict(&self, message: Seq<char>) -> bool {
        self is Conflict && self.body().is_single(409, message)
    }

    /// True for 500 Internal Server Error with one failure that says
    /// `Database error`.
    pub open spec fn is_database_error(&self) -> bool {
        self is InternalServerError && self.body().is_single(500, database_error_message())
    }

    /// The HTTP status code of the answer.
    pub open spec fn spec_status(&self) -> u16 {
        match *self {
            ErrorResponder::NotFound(_) => 404,
            ErrorResponder::Conflict(_) => 409,
            ErrorResponder::InternalServerError(_) => 500,
        }
    }

    /// The HTTP status code of the answer.
    #[verifier::when_used_as_spec(spec_status)]
    pub fn status(&self) -> (code: u16)
        ensures
            code == self.spec_status(),
    {
        match self {
            ErrorResponder::NotFound(_) => 404,
            ErrorResponder::Conflict(_) => 409,
            ErrorResponder::InternalServerError(_) => 500,
        }
    }
}

impl<T> SuccessResponder<T> {
    /// The HTTP status code of the answer.
    pub open spec fn spec_status(&self) -> u16 {
        match *self {
            SuccessResponder::Okay(_) => 200,
            SuccessResponder::Created(_) => 201,
            SuccessResponder::NoContent(_) => 204,
        }
    }

    /// The HTTP status code of the answer.
    #[verifier::when_used_as_spec(spec_status)]
    pub fn status(&self) -> (code: u16)
        ensures
            code == self.spec_status(),
    {
        match self {
            SuccessResponder::Okay(_) => 200,
            SuccessResponder::Created(_) => 201,
            SuccessResponder::NoContent(_) => 204,
        }
    }
}

/// The message of the failure that says nothing of its cause.
pub open spec fn database_error_message() -> Seq<char> {
    seq!['D', 'a', 't', 'a', 'b', 'a', 's', 'e', ' ', 'e', 'r', 'r', 'o', 'r']
}

/// The answer 404 Not Found, with one failure that carries the message.
#[must_use]
pub fn not_found_error(error_message: String) -> (responder: ErrorResponder)
    ensures
        responder.is_not_found(error_message@),
{
    ErrorResponder::NotFound(
        Errors { errors: vec![HTTPError { status_code: 404, message: error_message }] },
    )
}

/// The answer 409 Conflict, with one failure that carries the message.
#[must_use]
pub fn conflict(error_message: String) -> (responder: ErrorResponder)
    ensures
        responder.is_conflict(error_message@),
{
    ErrorResponder::Conflict(
        Errors { errors: vec![HTTPError { status_code: 409, message: error_message }] },
    )
}

/// The answer 500 Internal Server Error, with one failure whose message is
/// `Database error`.
#[must_use]
pub fn internal_server_error() -> (responder: ErrorResponder)
    ensures
        responder.is_database_error(),
{
    proof {
        reveal_strlit("Database error");
        assert("Database error"@ =~= database_error_message());
    }
    ErrorResponder::InternalServerError(
        Errors {
            errors: vec![HTTPError { status_code: 500, message: "Database error".to_owned() }],
        },
    )
}

/// The answer 200 OK around `data`.
#[must_use]
pub fn ok<T>(data: T) -> (responder: SuccessResponder<T>)
    ensures
        responder == SuccessResponder::Okay(data),
{
    SuccessResponder::Okay(data)
}

/// The answer 201 Created around `data`.
#[must_use]
pub fn created<T>(data: T) -> (responder: SuccessResponder<T>)
    ensures
        responder == SuccessResponder::Created(data),
{
    SuccessResponder::Created(data)
}

/// The answer 204 No Content.
#[must_use]
pub fn no_content() -> (responder: SuccessResponder<()>)
    ensures
        responder == SuccessResponder::<()>::NoContent(()),
{
    SuccessResponder::NoContent(())
}

} // verus!
