//! What the service does on each request, given the decoded request, the
//! store and the principal.

use vstd::prelude::*;

use crate::handlers::apiresponse::Status;

pub mod apiresponse;
pub mod auth;
pub mod course;
pub mod profile;
pub mod topic;

verus! {

/// Why a request is refused.
#[derive(Debug, Clone, Copy, PartialEq, Eq, Structural)]
pub enum Refusal {
    /// No valid principal came with a request that needs one.
    Unauthorized,
    /// The principal lacks the role or the ownership.
    Forbidden,
    /// No record has the id that the request names.
    NotFound,
    /// A record with the same title or username exists.
    Conflict,
    /// The record that the request refers to does not exist.
    InvalidReference,
    /// The collection is full: no id is left.
    CapacityExceeded,
}

impl Refusal {
    /// The status that a refusal goes out with.
    pub open spec fn spec_status(self) -> Status {
        match self {
            Refusal::Unauthorized => Status::Unauthorized,
            Refusal::Forbidden => Status::Forbidden,
            Refusal::NotFound => Status::NotFound,
            Refusal::Conflict => Status::BadRequest,
            Refusal::InvalidReference => Status::BadRequest,
            Refusal::CapacityExceeded => Status::InternalServerError,
        }
    }

    pub fn status(self) -> (status: Status)
        ensures
            status == self.spec_status(),
    {
        match self {
            Refusal::Unauthorized => Status::Unauthorized,
            Refusal::Forbidden => Status::Forbidden,
            Refusal::NotFound => Status::NotFound,
            Refusal::Conflict => Status::BadRequest,
            Refusal::InvalidReference => Status::BadRequest,
            Refusal::CapacityExceeded => Status::InternalServerError,
        }
    }
}

/// The most records a collection holds: ids are single bytes and start at 1.
pub const CAPACITY: usize = 255;

} // verus!
