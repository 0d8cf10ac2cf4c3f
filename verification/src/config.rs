//! The configuration, made once at startup and handed to whatever needs it.

use vstd::prelude::*;

verus! {

/// What the service is configured with.
#[derive(Debug, PartialEq, Eq)]
pub struct Config {
    /// The secret that session tokens are signed with.
    pub jwt_secret: Vec<u8>,
}

} // verus!
