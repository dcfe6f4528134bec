//! Session laws: properties that hold of every session, proved once over
//! the decision functions the sessions share.

use vstd::prelude::*;
use crate::error::Error;
use crate::native::{add_peer_decision, has_nul, start_outcome, AddPeerDecision, ParseOutcome};
use crate::receiver::read_request_outcome;
use crate::sender::send_outcome;

verus! {

/// A read on a session that never started is refused with "not started",
/// whatever the timeout, before any native call can be made.
pub proof fn lemma_read_before_start_is_refused(timeout_ms: u64)
    ensures
        read_request_outcome(false, timeout_ms) == Err::<i32, Error>(Error::NotStarted),
{
}

/// A send on a session that never started is refused with "not started",
/// whatever the native write would have answered.
pub proof fn lemma_send_before_start_is_refused(write_code: i32)
    ensures
        send_outcome(false, write_code) == Err::<usize, Error>(Error::NotStarted),
{
}

/// A second `start` on a session whose first `start` succeeded is
/// refused with "already started", whatever the native call would have
/// answered.
pub proof fn lemma_second_start_is_refused(code: i32)
    ensures
        start_outcome(true, code) == Err::<(), Error>(Error::AlreadyStarted),
{
}

/// An address with an embedded terminator byte never reaches the native
/// parser: registering such a peer is rejected as an invalid string, and
/// the rejection does not depend on what any native call would have
/// answered.
pub proof fn lemma_nul_address_never_parsed(
    url: Seq<char>,
    parsed_a: ParseOutcome,
    register_code_a: i32,
    parsed_b: ParseOutcome,
    register_code_b: i32,
)
    requires
        has_nul(url),
    ensures
        add_peer_decision(url, parsed_a, register_code_a) == AddPeerDecision::RejectedAddress,
        add_peer_decision(url, parsed_a, register_code_a)
            == add_peer_decision(url, parsed_b, register_code_b),
{
}

/// A timeout that exceeds the native signed 32-bit millisecond range is
/// refused with the timeout-overflow kind on a started session — never
/// silently truncated — and a representable timeout is handed to the
/// native call exactly.
pub proof fn lemma_unrepresentable_timeout_is_refused(timeout_ms: u64)
    ensures
        timeout_ms > i32::MAX as u64 ==> read_request_outcome(true, timeout_ms)
            == Err::<i32, Error>(Error::TimeoutOverflow),
        timeout_ms <= i32::MAX as u64 ==> read_request_outcome(true, timeout_ms)
            == Ok::<i32, Error>(timeout_ms as i32)
            && (timeout_ms as i32) as u64 == timeout_ms,
{
}

} // verus!
