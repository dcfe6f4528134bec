//! The receiving endpoint session and the data blocks it yields.
//!
//! A `Receiver` owns one native context and a started flag.  Data
//! operations before `start` fail with "not started"; a second `start`
//! fails with "already started".  A native read answers with a return
//! code and possibly a block: a negative code is a read failure, a zero
//! code or a null block means no data arrived within the timeout, which
//! is not an error.

use vstd::prelude::*;
use crate::context::Context;
use crate::error::Error;
use crate::native::{
    add_peer_decision, peer_config_from_parse, start_outcome, CreateOutcome, ParseOutcome,
};
use crate::profile::Profile;

verus! {

/// One received unit of payload plus delivery metadata, owning the
/// native block handle until it is released.
#[derive(Debug)]
pub struct DataBlock {
    payload: Vec<u8>,
    ts_ntp: u64,
    flow_id: u32,
    released: bool,
}

impl DataBlock {
    /// The payload bytes.
    pub closed spec fn payload_view(self) -> Seq<u8> {
        self.payload@
    }

    /// The delivery timestamp, in the native 64-bit clock unit.
    pub closed spec fn timestamp_value(self) -> u64 {
        self.ts_ntp
    }

    /// The flow identifier the block arrived on.
    pub closed spec fn flow(self) -> u32 {
        self.flow_id
    }

    /// Whether the native buffer behind the block has been released.
    pub closed spec fn is_released(self) -> bool {
        self.released
    }

    /// Take ownership of one block a successful native read produced.
    pub fn from_raw(payload: Vec<u8>, ts_ntp: u64, flow_id: u32) -> (b: DataBlock)
        ensures
            b.payload_view() == payload@,
            b.timestamp_value() == ts_ntp,
            b.flow() == flow_id,
            !b.is_released(),
    {
        DataBlock { payload, ts_ntp, flow_id, released: false }
    }

    /// Whether the native buffer behind the block has been released, for
    /// the driver and the adapter to test before reading through it.
    pub fn released(&self) -> (r: bool)
        ensures
            r == self.is_released(),
    {
        self.released
    }

    /// The payload data.  The view is only valid while the block still
    /// owns the native buffer.
    pub fn payload(&self) -> (r: &[u8])
        requires
            !self.is_released(),
        ensures
            r@ == self.payload_view(),
    {
        self.payload.as_slice()
    }

    /// The timestamp (in the native clock unit).
    pub fn timestamp(&self) -> (r: u64)
        requires
            !self.is_released(),
        ensures
            r == self.timestamp_value(),
    {
        self.ts_ntp
    }

    /// The flow identifier.
    pub fn flow_id(&self) -> (r: u32)
        requires
            !self.is_released(),
        ensures
            r == self.flow(),
    {
        self.flow_id
    }

    /// The block and answer that one `release` call leaves.
    pub closed spec fn release_result(self) -> (DataBlock, bool) {
        if self.is_released() {
            (self, false)
        } else {
            (DataBlock { released: true, ..self }, true)
        }
    }

    /// Give the native buffer back.  The first call answers `true`, and
    /// only that call may reach the native free; every later call answers
    /// `false`, so the buffer cannot be freed twice.
    pub fn release(&mut self) -> (r: bool)
        ensures
            (*final(self), r) == old(self).release_result(),
            final(self).is_released(),
            final(self).payload_view() == old(self).payload_view(),
            final(self).timestamp_value() == old(self).timestamp_value(),
            final(self).flow() == old(self).flow(),
            r == !old(self).is_released(),
    {
        if self.released {
            false
        } else {
            self.released = true;
            true
        }
    }
}

/// Releasing a data block a second time answers `false`: whatever state
/// the block is in, the first `release` is the only one that can reach
/// the native free call.
pub proof fn lemma_block_released_exactly_once(block: DataBlock)
    ensures
        ({
            let (once, first) = block.release_result();
            let (twice, second) = once.release_result();
            &&& (!block.is_released() ==> first)
            &&& once.is_released()
            &&& !second
            &&& twice == once
        }),
{
}

/// What a native data read yielded: its return code and the block it
/// produced, `None` when it produced none.
#[derive(Debug)]
pub struct ReadOutcome {
    /// Return code of the read call: negative on failure, zero when no
    /// data arrived within the timeout, positive when a block arrived.
    pub code: i32,
    /// The block the read produced, already wrapped for ownership.
    pub block: Option<DataBlock>,
}

/// What a read request comes to before any native call is made: a data
/// operation on a session that never started is refused, a timeout that
/// does not fit the native signed 32-bit millisecond argument is refused,
/// and otherwise the converted timeout is handed back for the native
/// call, exactly, never truncated.
pub open spec fn read_request_outcome(started: bool, timeout_ms: u64) -> Result<i32, Error> {
    if !started {
        Err(Error::NotStarted)
    } else if timeout_ms > i32::MAX as u64 {
        Err(Error::TimeoutOverflow)
    } else {
        Ok(timeout_ms as i32)
    }
}

/// Interpret a native read outcome.  A negative code is a read failure;
/// a zero code or a null block is "no data within the timeout", a
/// designed non-error; otherwise the block is handed over.
pub fn interpret_read(outcome: ReadOutcome) -> (r: Result<Option<DataBlock>, Error>)
    ensures
        outcome.code < 0 ==> r == Err::<Option<DataBlock>, Error>(Error::Read),
        outcome.code >= 0 && (outcome.code == 0 || outcome.block is None)
            ==> r == Ok::<Option<DataBlock>, Error>(None),
        outcome.code > 0 && outcome.block is Some
            ==> r == Ok::<Option<DataBlock>, Error>(Some(outcome.block->0)),
{
    if outcome.code < 0 {
        return Err(Error::Read);
    }
    if outcome.code == 0 {
        return Ok(None);
    }
    match outcome.block {
        None => Ok(None),
        Some(block) => Ok(Some(block)),
    }
}

/// A receiving endpoint session: one owned native context, its started
/// flag, and the count of peers registered on it.
#[derive(Debug)]
pub struct Receiver {
    ctx: Context,
    started: bool,
    peers: u64,
    tier: Profile,
}

impl Receiver {
    /// The owned native context.
    pub closed spec fn context(self) -> Context {
        self.ctx
    }

    /// Whether `start` has succeeded on this session.
    pub closed spec fn is_started(self) -> bool {
        self.started
    }

    /// How many peers have been registered on this session.
    pub closed spec fn peer_total(self) -> u64 {
        self.peers
    }

    /// The profile the session was created with.
    pub closed spec fn profile(self) -> Profile {
        self.tier
    }

    /// Create a receiver session from what the native creation call for
    /// the given profile yielded.  A non-zero code or a null handle is a
    /// context-creation failure.
    pub fn new(profile: Profile, created: CreateOutcome) -> (r: Result<Receiver, Error>)
        ensures
            created.ok() <==> r is Ok,
            r matches Ok(rx) ==> {
                &&& rx.context().handle_id() == created.handle
                &&& !rx.context().is_released()
                &&& !rx.is_started()
                &&& rx.peer_total() == 0
                &&& rx.profile() == profile
            },
            r matches Err(e) ==> e is ContextCreation,
    {
        let ctx = Context::from_create(created)?;
        Ok(Receiver { ctx, started: false, peers: 0, tier: profile })
    }

    /// The raw handle value, for handing to a native call.
    pub fn raw(&self) -> (r: u64)
        requires
            !self.context().is_released(),
        ensures
            r == self.context().handle_id(),
    {
        self.ctx.raw()
    }

    /// Whether `start` has succeeded, for the driver to decide whether a
    /// native start call is due.
    pub fn started(&self) -> (r: bool)
        ensures
            r == self.is_started(),
    {
        self.started
    }

    /// Register a peer by address, given what the native parse and
    /// register calls answered.  An address with an embedded terminator
    /// byte is rejected before either outcome is looked at; a parse
    /// failure and a register failure each carry the address back.
    pub fn add_peer(&mut self, url: &str, parsed: ParseOutcome, register_code: i32)
        -> (r: Result<(), Error>)
        requires
            !old(self).context().is_released(),
            old(self).peer_total() < u64::MAX,
        ensures
            final(self).context() == old(self).context(),
            final(self).is_started() == old(self).is_started(),
            final(self).profile() == old(self).profile(),
            ({
                let decision = add_peer_decision(url@, parsed, register_code);
                &&& (decision is RejectedAddress ==> (r matches Err(e)
                    && e matches Error::NulError(u) && u@ == url@))
                &&& (decision is ParseFailed ==> (r matches Err(e)
                    && e matches Error::UrlParse(u) && u@ == url@))
                &&& (decision is RegisterFailed ==> (r matches Err(e)
                    && e matches Error::PeerCreation(u) && u@ == url@))
                &&& (decision is Registered <==> r is Ok)
                &&& (decision is Registered ==> final(self).peer_total()
                    == old(self).peer_total() + 1)
                &&& (!(decision is Registered) ==> final(self).peer_total()
                    == old(self).peer_total())
            }),
    {
        let _config = peer_config_from_parse(url, parsed)?;
        if register_code != 0 {
            return Err(Error::PeerCreation(String::from_str(url)));
        }
        self.peers = self.peers + 1;
        Ok(())
    }

    /// Record a successful native start, or refuse one.  A session that
    /// already started answers "already started" without consulting the
    /// code; otherwise a non-zero code is a start failure and a zero code
    /// marks the session started.
    pub fn start(&mut self, code: i32) -> (r: Result<(), Error>)
        requires
            !old(self).context().is_released(),
        ensures
            final(self).context() == old(self).context(),
            final(self).profile() == old(self).profile(),
            final(self).peer_total() == old(self).peer_total(),
            r == start_outcome(old(self).is_started(), code),
            old(self).is_started() ==> r == Err::<(), Error>(Error::AlreadyStarted)
                && final(self).is_started(),
            !old(self).is_started() && code != 0 ==> r == Err::<(), Error>(Error::Start)
                && !final(self).is_started(),
            !old(self).is_started() && code == 0 ==> r is Ok && final(self).is_started(),
            r is Ok <==> !old(self).is_started() && code == 0,
    {
        if self.started {
            return Err(Error::AlreadyStarted);
        }
        if code != 0 {
            return Err(Error::Start);
        }
        self.started = true;
        Ok(())
    }

    /// Decide whether a read may proceed and convert its timeout to the
    /// native integer-millisecond argument, refusing a timeout the native
    /// unit cannot represent.
    pub fn read_request(&self, timeout_ms: u64) -> (r: Result<i32, Error>)
        requires
            !self.context().is_released(),
        ensures
            r == read_request_outcome(self.is_started(), timeout_ms),
    {
        if !self.started {
            return Err(Error::NotStarted);
        }
        if timeout_ms > i32::MAX as u64 {
            return Err(Error::TimeoutOverflow);
        }
        Ok(timeout_ms as i32)
    }

    /// Read data with a timeout, given what the native read call
    /// answered.  Refused before `start` and for an unrepresentable
    /// timeout; a zero code or a null block yields no data, which is not
    /// an error.
    pub fn read(&self, timeout_ms: u64, outcome: ReadOutcome)
        -> (r: Result<Option<DataBlock>, Error>)
        requires
            !self.context().is_released(),
        ensures
            !self.is_started() ==> r == Err::<Option<DataBlock>, Error>(Error::NotStarted),
            self.is_started() && timeout_ms > i32::MAX as u64
                ==> r == Err::<Option<DataBlock>, Error>(Error::TimeoutOverflow),
            self.is_started() && timeout_ms <= i32::MAX as u64 ==> {
                &&& outcome.code < 0 ==> r == Err::<Option<DataBlock>, Error>(Error::Read)
                &&& outcome.code >= 0 && (outcome.code == 0 || outcome.block is None)
                    ==> r == Ok::<Option<DataBlock>, Error>(None)
                &&& outcome.code > 0 && outcome.block is Some
                    ==> r == Ok::<Option<DataBlock>, Error>(Some(outcome.block->0))
            },
    {
        let _timeout = self.read_request(timeout_ms)?;
        interpret_read(outcome)
    }

    /// End ownership of the native context.  The first call yields the
    /// raw handle for the single native destroy call; every later call
    /// yields nothing.
    pub fn release(&mut self) -> (r: Option<u64>)
        ensures
            (final(self).context(), r) == old(self).context().release_result(),
            final(self).is_started() == old(self).is_started(),
            final(self).peer_total() == old(self).peer_total(),
            final(self).profile() == old(self).profile(),
            final(self).context().is_released(),
            !old(self).context().is_released() ==> r == Some(old(self).context().handle_id()),
            old(self).context().is_released() ==> r is None,
    {
        self.ctx.release()
    }
}

} // verus!
