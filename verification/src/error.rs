//! Error taxonomy of the library.
//!
//! Decode failures, remote rejections and transport failures are kept apart:
//! a remote rejection is the authoritative verdict of the evaluation service
//! and must never be masked as a transport problem.

use vstd::prelude::*;

verus! {

/// What can go wrong in the verification and store paths.
#[derive(Debug, PartialEq, Eq)]
pub enum Error {
    /// A policy payload was handed in that is not valid UTF-8 text.
    PolicyNotUtf8,
    /// An evidence envelope could not be parsed as the expected JSON object.
    MalformedEvidence,
    /// The remote evaluation service explicitly rejected the request;
    /// the payload is the remote reason, verbatim.
    RemoteRejection(String),
    /// The transport below the RPC failed (dial, handshake, disconnect).
    Transport(String),
    /// A store backend selector did not name any known backend.
    UnknownStoreType,
}

impl Error {
    /// A human-readable description; the remote reason is kept verbatim
    /// inside the text so that callers can audit the verdict.
    pub fn message(&self) -> (r: String)
        ensures
            self matches Error::RemoteRejection(m) ==> r@ == "remote evaluation rejected: "@ + m@,
            self matches Error::Transport(m) ==> r@ == "transport failure: "@ + m@,
    {
        match self {
            Error::PolicyNotUtf8 => String::from_str("policy payload is not valid UTF-8"),
            Error::MalformedEvidence => String::from_str("evidence envelope is not the expected JSON object"),
            Error::RemoteRejection(m) => String::from_str("remote evaluation rejected: ").concat(m.as_str()),
            Error::Transport(m) => String::from_str("transport failure: ").concat(m.as_str()),
            Error::UnknownStoreType => String::from_str("unknown store backend selector"),
        }
    }
}

} // verus!
