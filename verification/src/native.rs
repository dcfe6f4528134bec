//! Plain-value images of native call results, and address validation.
//!
//! The native engine answers every call with an integer return code and,
//! for the calls that produce one, a handle.  A handle is represented here
//! by its raw value, with `0` standing for a null result.  A driver makes
//! the calls and passes these images in; the functions of this crate make
//! every decision from them.

use vstd::prelude::*;
use crate::error::Error;
use crate::options::PeerConfig;

verus! {

/// What a native context-creation call yielded: its return code and the
/// raw handle it stored, `0` when it stored none.
#[derive(Debug, Clone, Copy, PartialEq, Eq, Structural)]
pub struct CreateOutcome {
    /// Return code of the creation call.
    pub code: i32,
    /// Raw value of the handle the call produced; `0` for null.
    pub handle: u64,
}

impl CreateOutcome {
    /// A creation call succeeded when it returned zero and stored a
    /// non-null handle.
    pub open spec fn ok(self) -> bool {
        self.code == 0 && self.handle != 0
    }
}

/// What the native address parser yielded: its return code and the peer
/// configuration it produced, `None` when it produced none.
#[derive(Debug, Clone, Copy, PartialEq, Eq, Structural)]
pub struct ParseOutcome {
    /// Return code of the parse call.
    pub code: i32,
    /// The parsed configuration, with native defaults filled in.
    pub config: Option<PeerConfig>,
}

impl ParseOutcome {
    /// A parse succeeded when it returned zero and produced a
    /// configuration.
    pub open spec fn ok(self) -> bool {
        self.code == 0 && self.config is Some
    }
}

/// Whether the character sequence embeds a terminator.
pub open spec fn has_nul(s: Seq<char>) -> bool {
    exists|i: int| 0 <= i < s.len() && s[i] == '\0'
}

/// Scan an address for an embedded terminator byte.  An address that
/// holds one must never be handed to the native parser.
pub fn contains_nul(url: &str) -> (r: bool)
    ensures
        r == has_nul(url@),
{
    let len = url.unicode_len();
    let mut i: usize = 0;
    while i < len
        invariant
            len == url@.len(),
            0 <= i <= len,
            forall|j: int| 0 <= j < i ==> url@[j] != '\0',
        decreases len - i,
    {
        if url.get_char(i) == '\0' {
            return true;
        }
        i = i + 1;
    }
    false
}

/// How one attempt to register a peer ends, given the address and what
/// the native parse and register calls answered.
#[derive(Debug, Clone, Copy, PartialEq, Eq, Structural)]
pub enum AddPeerDecision {
    /// The address embeds a terminator byte; the native parser is never
    /// consulted.
    RejectedAddress,
    /// The native parser refused the address.
    ParseFailed,
    /// The native engine refused to register the parsed peer.
    RegisterFailed,
    /// The peer was registered.
    Registered,
}

/// The decision that registering a peer comes to.  An address with an
/// embedded terminator is rejected outright, so the decision then does
/// not depend on either native outcome.
pub open spec fn add_peer_decision(
    url: Seq<char>,
    parsed: ParseOutcome,
    register_code: i32,
) -> AddPeerDecision {
    if has_nul(url) {
        AddPeerDecision::RejectedAddress
    } else if !parsed.ok() {
        AddPeerDecision::ParseFailed
    } else if register_code != 0 {
        AddPeerDecision::RegisterFailed
    } else {
        AddPeerDecision::Registered
    }
}

/// What `start` comes to: a session that already started is refused
/// without the native start call being consulted; otherwise a non-zero
/// code is a start failure and a zero code marks the session started.
pub open spec fn start_outcome(started: bool, code: i32) -> Result<(), Error> {
    if started {
        Err(Error::AlreadyStarted)
    } else if code != 0 {
        Err(Error::Start)
    } else {
        Ok(())
    }
}

/// Interpret the native address-parse outcome for an address, after
/// rejecting an address that embeds a terminator byte.  On success the
/// parsed configuration, with native defaults in every field the parser
/// filled, is handed back for tuning and registration.
pub fn peer_config_from_parse(url: &str, parsed: ParseOutcome) -> (r: Result<PeerConfig, Error>)
    ensures
        has_nul(url@) ==> (r matches Err(e) && e matches Error::NulError(u) && u@ == url@),
        !has_nul(url@) && !parsed.ok() ==> (r matches Err(e) && e matches Error::UrlParse(u)
            && u@ == url@),
        !has_nul(url@) && parsed.ok() ==> r == Ok::<PeerConfig, Error>(parsed.config->0),
        r is Ok <==> !has_nul(url@) && parsed.ok(),
{
    if contains_nul(url) {
        return Err(Error::NulError(String::from_str(url)));
    }
    if parsed.code != 0 {
        return Err(Error::UrlParse(String::from_str(url)));
    }
    match parsed.config {
        Some(config) => Ok(config),
        None => Err(Error::UrlParse(String::from_str(url))),
    }
}

} // verus!
