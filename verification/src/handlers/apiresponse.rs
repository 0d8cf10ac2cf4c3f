//! The answers of the service: an envelope and the status it goes out with.

use vstd::prelude::*;
use vstd::string::StringExecFns;

use crate::models::Response;

verus! {

/// The status an answer goes out with.
#[derive(Debug, Clone, Copy, PartialEq, Eq, Structural)]
pub enum Status {
    Success,
    Created,
    BadRequest,
    Unauthorized,
    Forbidden,
    NotFound,
    InternalServerError,
}

impl Status {
    /// The number of the status on the wire.
    pub open spec fn spec_code(self) -> u16 {
        match self {
            Status::Success => 200,
            Status::Created => 201,
            Status::BadRequest => 400,
            Status::Unauthorized => 401,
            Status::Forbidden => 403,
            Status::NotFound => 404,
            Status::InternalServerError => 500,
        }
    }

    pub fn code(self) -> (code: u16)
        ensures
            code == self.spec_code(),
    {
        match self {
            Status::Success => 200,
            Status::Created => 201,
            Status::BadRequest => 400,
            Status::Unauthorized => 401,
            Status::Forbidden => 403,
            Status::NotFound => 404,
            Status::InternalServerError => 500,
        }
    }
}

/// An answer: the envelope and its status.
#[derive(Debug, PartialEq, Eq)]
pub struct Reply<T> {
    pub status: Status,
    pub body: Response<T>,
}

impl<T> Reply<T> {
    /// Whether the answer is a failure with this status and message.
    pub open spec fn fails(&self, status: Status, message: Seq<char>) -> bool {
        self.status == status && self.body.is_error(message)
    }

    /// Whether the answer is a success with this status.
    pub open spec fn succeeds(&self, status: Status) -> bool {
        self.status == status && self.body.is_data()
    }
}

/// The message of a refusal for want of a valid principal, where the caller
/// gives none.
pub const NOT_AUTHORIZED: &'static str = "Not authorized!";

/// The message of a refusal for want of privilege.
pub const FORBIDDEN: &'static str = "Forbidden!";

fn failure<T>(status: Status, message: &str) -> (reply: Reply<T>)
    ensures
        reply.fails(status, message@),
{
    Reply { status, body: Response { data: None, error: Some(String::from_str(message)) } }
}

/// 401 with the message, or with `NOT_AUTHORIZED` where the message is empty.
pub fn unauthorized<T>(message: &str) -> (reply: Reply<T>)
    ensures
        reply.fails(
            Status::Unauthorized,
            if message@.len() == 0 {
                NOT_AUTHORIZED@
            } else {
                message@
            },
        ),
{
    if message.is_empty() {
        failure(Status::Unauthorized, NOT_AUTHORIZED)
    } else {
        failure(Status::Unauthorized, message)
    }
}

/// 403 with `FORBIDDEN`.
pub fn forbidden<T>() -> (reply: Reply<T>)
    ensures
        reply.fails(Status::Forbidden, FORBIDDEN@),
{
    failure(Status::Forbidden, FORBIDDEN)
}

/// 500 with the message.
pub fn internal_server_error<T>(message: &str) -> (reply: Reply<T>)
    ensures
        reply.fails(Status::InternalServerError, message@),
{
    failure(Status::InternalServerError, message)
}

/// 400 with the message.
pub fn bad_request<T>(message: &str) -> (reply: Reply<T>)
    ensures
        reply.fails(Status::BadRequest, message@),
{
    failure(Status::BadRequest, message)
}

/// 404 with the message.
pub fn not_found<T>(message: &str) -> (reply: Reply<T>)
    ensures
        reply.fails(Status::NotFound, message@),
{
    failure(Status::NotFound, message)
}

/// 200 with the value.
pub fn ok<T>(data: T) -> (reply: Reply<T>)
    ensures
        reply.succeeds(Status::Success),
        reply.body.data == Some(data),
{
    Reply { status: Status::Success, body: Response { data: Some(data), error: None } }
}

/// 201 with the value.
pub fn created<T>(data: T) -> (reply: Reply<T>)
    ensures
        reply.succeeds(Status::Created),
        reply.body.data == Some(data),
{
    Reply { status: Status::Created, body: Response { data: Some(data), error: None } }
}

} // verus!
