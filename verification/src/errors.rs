//! Failure taxonomy of the client.
//!
//! Every failure is terminal for the current invocation: the caller surfaces
//! it and exits nonzero. No variant carries data; the front end formats the
//! message.

use vstd::prelude::*;

verus! {

/// The ways a client invocation can fail.
#[derive(Clone, Copy, Debug, PartialEq, Eq, Structural)]
pub enum VampError {
    /// A flag or value is missing, duplicated, or malformed; detected before
    /// any network access.
    ArgumentError,
    /// An account-like argument is neither a valid base-58 key nor a loadable
    /// keypair file.
    InvalidIdentity,
    /// The host is big-endian, which the wire format does not support.
    UnsupportedHost,
    /// The managed-record account is absent or not of the fixed record size.
    NotManaged,
    /// A blockhash fetch, account fetch, or submission failed in transport.
    TransportError,
}

impl VampError {
    /// A short description, for the front end's error stream.
    pub fn describe(&self) -> (r: &'static str)
        ensures
            r@.len() > 0,
    {
        proof {
            reveal_strlit("missing, duplicate, or malformed argument");
            reveal_strlit("not a valid public key or keypair file");
            reveal_strlit("unsupported on big endian CPU architectures");
            reveal_strlit("not managed by the Vote Account Manager program");
            reveal_strlit("transport failure");
        }
        match self {
            VampError::ArgumentError => "missing, duplicate, or malformed argument",
            VampError::InvalidIdentity => "not a valid public key or keypair file",
            VampError::UnsupportedHost => "unsupported on big endian CPU architectures",
            VampError::NotManaged => "not managed by the Vote Account Manager program",
            VampError::TransportError => "transport failure",
        }
    }
}

} // verus!
