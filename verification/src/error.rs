//! Error taxonomy of the client: each stage fails with a distinct kind so
//! that a caller can tell a missing secret from an authentication failure,
//! a transport failure or a response of the wrong shape.
use vstd::prelude::*;

verus! {

/// Failure categories of the client, one per stage that can go wrong.
#[derive(Clone, Copy, Debug, PartialEq, Eq, Structural)]
pub enum ApiError {
    /// The client secret is missing from the environment.
    Config,
    /// The token endpoint's response held no usable access token.
    Auth,
    /// A transport failure on any request.
    Network,
    /// A response body that does not match the expected shape.
    Schema,
}

impl ApiError {
    /// A short human-readable name of the failing stage.
    pub fn describe(&self) -> (r: &'static str)
        ensures
            r@ == self.describe_spec(),
    {
        match self {
            ApiError::Config => "missing client secret",
            ApiError::Auth => "token request failed",
            ApiError::Network => "network failure",
            ApiError::Schema => "response did not match the expected shape",
        }
    }

    /// What `describe` returns for each kind.
    pub open spec fn describe_spec(self) -> Seq<char> {
        match self {
            ApiError::Config => "missing client secret"@,
            ApiError::Auth => "token request failed"@,
            ApiError::Network => "network failure"@,
            ApiError::Schema => "response did not match the expected shape"@,
        }
    }
}

} // verus!
