//! Protocol-level error type sent over the wire.
//!
//! This is intentionally small and stable. Internal server errors are surfaced
//! to clients as [`ProtocolError::InternalError`] without leaking detail.

use vstd::prelude::*;
use vstd::string::StringExecFns;

use crate::text::{decimal, decimal_string};

verus! {

#[non_exhaustive]
#[derive(Debug, PartialEq, Eq)]
pub enum ProtocolError {
    NotAuthenticated,
    PermissionDenied,
    NotFound { what: String },
    InvalidRequest { message: String },
    RateLimited { retry_after_secs: u32 },
    InternalError,
}

/// The human-readable text of an error.
pub open spec fn error_text(e: ProtocolError) -> Seq<char> {
    match e {
        ProtocolError::NotAuthenticated => "not authenticated"@,
        ProtocolError::PermissionDenied => "permission denied"@,
        ProtocolError::NotFound { what } => "not found: "@ + what@,
        ProtocolError::InvalidRequest { message } => "invalid request: "@ + message@,
        ProtocolError::RateLimited { retry_after_secs } => "rate limited; retry after "@
            + decimal(retry_after_secs as nat) + "s"@,
        ProtocolError::InternalError => "internal server error"@,
    }
}

impl ProtocolError {
    /// The human-readable text of the error (what its `Display` shows).
    pub fn to_string(&self) -> (r: String)
        ensures
            r@ == error_text(*self),
    {
        match self {
            ProtocolError::NotAuthenticated => String::from_str("not authenticated"),
            ProtocolError::PermissionDenied => String::from_str("permission denied"),
            ProtocolError::NotFound { what } => {
                let mut s = String::from_str("not found: ");
                s.append(what.as_str());
                s
            },
            ProtocolError::InvalidRequest { message } => {
                let mut s = String::from_str("invalid request: ");
                s.append(message.as_str());
                s
            },
            ProtocolError::RateLimited { retry_after_secs } => {
                let mut s = String::from_str("rate limited; retry after ");
                let n = decimal_string(*retry_after_secs as u64);
                s.append(n.as_str());
                s.append("s");
                s
            },
            ProtocolError::InternalError => String::from_str("internal server error"),
        }
    }
}

impl Clone for ProtocolError {
    fn clone(&self) -> (r: Self)
        ensures
            r == *self,
    {
        match self {
            ProtocolError::NotAuthenticated => ProtocolError::NotAuthenticated,
            ProtocolError::PermissionDenied => ProtocolError::PermissionDenied,
            ProtocolError::NotFound { what } => ProtocolError::NotFound { what: what.clone() },
            ProtocolError::InvalidRequest { message } => ProtocolError::InvalidRequest {
                message: message.clone(),
            },
            ProtocolError::RateLimited { retry_after_secs } => ProtocolError::RateLimited {
                retry_after_secs: *retry_after_secs,
            },
            ProtocolError::InternalError => ProtocolError::InternalError,
        }
    }
}

} // verus!
