//! The closed taxonomy of failure kinds.
//!
//! Every native call site maps a non-zero or negative return code, or a
//! null handle, to exactly one of these kinds; no kind is ever inferred
//! from context.

use vstd::prelude::*;

verus! {

/// One failure kind per distinct failure point of the bridge.
#[derive(Debug)]
pub enum Error {
    /// The native engine could not allocate a session context.
    ContextCreation,
    /// The native engine refused to register a peer; carries the address.
    PeerCreation(String),
    /// The native address parser rejected the address; carries it.
    UrlParse(String),
    /// The native start call failed.
    Start,
    /// The native write call reported a failure.
    Send,
    /// The native read call reported a failure.
    Read,
    /// The supplied address embeds a terminator byte; carries the address.
    NulError(String),
    /// `start` was called on a session that had already started.
    AlreadyStarted,
    /// A data operation was attempted before `start`.
    NotStarted,
    /// A timeout does not fit the native integer-millisecond unit.
    TimeoutOverflow,
    /// Logging could not be configured.
    LoggingSetup,
    /// A background task failed to complete; carries the reason.
    JoinError(String),
}

impl Error {
    /// A human-readable description of the failure, carrying the offending
    /// address or reason where the kind holds one.
    pub fn message(&self) -> (r: String)
        ensures
            self matches Error::PeerCreation(u) ==> r@ == "failed to create peer: "@ + u@,
            self matches Error::UrlParse(u) ==> r@ == "failed to parse URL: "@ + u@,
            self matches Error::NulError(u) ==> r@ == "invalid string: contains null byte: "@ + u@,
            self matches Error::JoinError(m) ==> r@ == "async task join error: "@ + m@,
            self is ContextCreation ==> r@ == "failed to create context"@,
            self is Start ==> r@ == "failed to start context"@,
            self is Send ==> r@ == "failed to send data"@,
            self is Read ==> r@ == "failed to read data"@,
            self is AlreadyStarted ==> r@ == "context already started"@,
            self is NotStarted ==> r@ == "context not started"@,
            self is TimeoutOverflow ==> r@ == "timeout value too large"@,
            self is LoggingSetup ==> r@ == "logging setup failed"@,
    {
        match self {
            Error::ContextCreation => String::from_str("failed to create context"),
            Error::PeerCreation(u) => String::from_str("failed to create peer: ").concat(u.as_str()),
            Error::UrlParse(u) => String::from_str("failed to parse URL: ").concat(u.as_str()),
            Error::Start => String::from_str("failed to start context"),
            Error::Send => String::from_str("failed to send data"),
            Error::Read => String::from_str("failed to read data"),
            Error::NulError(u) => {
                String::from_str("invalid string: contains null byte: ").concat(u.as_str())
            },
            Error::AlreadyStarted => String::from_str("context already started"),
            Error::NotStarted => String::from_str("context not started"),
            Error::TimeoutOverflow => String::from_str("timeout value too large"),
            Error::LoggingSetup => String::from_str("logging setup failed"),
            Error::JoinError(m) => String::from_str("async task join error: ").concat(m.as_str()),
        }
    }
}

} // verus!
