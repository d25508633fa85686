//! The crate's error taxonomy.  Every failure is returned to the caller;
//! the only locally absorbed condition is a token not yet due for refresh,
//! which is no error.

use crate::session::AuthType;
use vstd::prelude::*;

verus! {

/// Errors of the token lifecycle and of request dispatch.
#[derive(Debug)]
pub enum Error {
    /// A token string is not three non-empty dot-separated segments.
    MalformedToken,
    /// A payload segment is not valid Base64URL.
    InvalidEncoding,
    /// Decoded payload bytes are not JSON with the required claims.
    InvalidPayload,
    /// A remote exchange or refresh answered with a rejecting status.
    CredentialsRejected { status: u16 },
    /// No session is configured for the requested audience; a
    /// configuration error, never retried.
    MissingCredentials { auth_type: AuthType },
    /// The transport failed or the call was cancelled; the collaborator's
    /// description is carried unchanged.
    TransportError { message: String },
    /// A dispatched request answered with a status outside 200..=299.
    HttpStatus { status: u16, body: String },
    /// A failure met during the implicit pre-request refresh; the request
    /// itself was never sent.
    RefreshFailed { source: Box<Error> },
}

} // verus!
