//! The readiness-notification bridging design, and the asynchronous
//! receiver built on it.
//!
//! The native engine is told to write one byte to an OS-level endpoint
//! (one end of a pipe) whenever receive data becomes available.  An
//! asynchronous receive suspends until that endpoint is readable, drains
//! the pending notification bytes, and then polls the native engine with
//! a zero timeout.  A poll that yields nothing despite the wakeup is a
//! benign race: the task re-registers for readiness rather than erroring.
//! This design never parks a worker thread and scales to many sessions on
//! few threads, at the cost of OS-specific readiness plumbing; the
//! worker-offload design is the simpler, portable alternative and serves
//! the sending side.
//!
//! The pipe itself, the suspension, and the native calls are the
//! driver's; every decision they feed — how a drain read is interpreted,
//! how a poll outcome is mapped, what construction does — is verified
//! here.

use vstd::prelude::*;
use crate::context::Context;
use crate::error::Error;
use crate::native::{
    add_peer_decision, peer_config_from_parse, CreateOutcome, ParseOutcome,
};
use crate::options::{PeerConfig, ReceiverOptions};
use crate::receiver::{interpret_read, DataBlock, ReadOutcome};
use crate::stats::{ReceiverStats, ReceiverStatsCell, StatsEvent};
use crate::stream::{PollRead, StreamBuf};
use crate::profile::Profile;

verus! {

/// The interval, in milliseconds, at which the stats callback is
/// registered at session construction.
pub const STATS_INTERVAL_MS: u64 = 1000;

/// One step of draining the notification endpoint.
#[derive(Debug, Clone, Copy, PartialEq, Eq, Structural)]
pub enum DrainStep {
    /// Nothing more to drain; proceed to the native poll.
    Drained,
    /// Bytes were consumed; read again.
    Again,
    /// The endpoint reported a real failure.
    Failed,
}

/// Interpret one read of the notification endpoint while draining it.
/// A would-block answer means nothing more is pending, which is the
/// normal end of the drain; a zero answer is end-of-stream and also ends
/// it; any other negative answer is a failure; a positive answer is a
/// count of consumed bytes, after which the drain reads again.
pub fn drain_step(read_ret: i64, would_block: bool) -> (r: DrainStep)
    ensures
        read_ret < 0 && would_block ==> r is Drained,
        read_ret < 0 && !would_block ==> r is Failed,
        read_ret == 0 ==> r is Drained,
        read_ret > 0 ==> r is Again,
{
    if read_ret < 0 {
        if would_block {
            DrainStep::Drained
        } else {
            DrainStep::Failed
        }
    } else if read_ret == 0 {
        DrainStep::Drained
    } else {
        DrainStep::Again
    }
}

/// Interpret the native address-parse outcome and apply the caller's
/// options: the configuration handed back is the parsed one with every
/// explicitly set option written over it, ready for the native register
/// call.
pub fn prepare_peer_config(url: &str, parsed: ParseOutcome, options: &ReceiverOptions)
    -> (r: Result<PeerConfig, Error>)
    ensures
        crate::native::has_nul(url@) ==> (r matches Err(e) && e matches Error::NulError(u)
            && u@ == url@),
        !crate::native::has_nul(url@) && !parsed.ok() ==> (r matches Err(e)
            && e matches Error::UrlParse(u) && u@ == url@),
        !crate::native::has_nul(url@) && parsed.ok()
            ==> r == Ok::<PeerConfig, Error>(options.applied_to(parsed.config->0)),
        r is Ok <==> !crate::native::has_nul(url@) && parsed.ok(),
{
    let mut config = peer_config_from_parse(url, parsed)?;
    options.apply_to_peer_config(&mut config);
    Ok(config)
}

/// An asynchronous receiver: one owned native context, started at
/// construction, with its stats cell and its byte-stream adapter buffer.
#[derive(Debug)]
pub struct AsyncReceiver {
    ctx: Context,
    stats: ReceiverStatsCell,
    buf: StreamBuf,
    tier: Profile,
}

impl AsyncReceiver {
    /// The owned native context.
    pub closed spec fn context(self) -> Context {
        self.ctx
    }

    /// The latest stats snapshot, or absence before the first callback.
    pub closed spec fn stats_snapshot(self) -> Option<ReceiverStats> {
        self.stats.snapshot()
    }

    /// The bytes the stream adapter holds back from earlier blocks.
    pub closed spec fn buffered(self) -> Seq<u8> {
        self.buf.buffered()
    }

    /// The profile the session was created with.
    pub closed spec fn profile(self) -> Profile {
        self.tier
    }

    /// Bind a receiver to listen on the given address, with default
    /// options.
    pub fn bind(profile: Profile, url: &str, created: CreateOutcome, parsed: ParseOutcome,
        register_code: i32, start_code: i32) -> (r: Result<AsyncReceiver, Error>)
        ensures
            r is Ok <==> created.ok()
                && add_peer_decision(url@, parsed, register_code) is Registered
                && start_code == 0,
            !created.ok() ==> r == Err::<AsyncReceiver, Error>(Error::ContextCreation),
            created.ok() ==> ({
                let decision = add_peer_decision(url@, parsed, register_code);
                &&& (decision is RejectedAddress ==> (r matches Err(e)
                    && e matches Error::NulError(u) && u@ == url@))
                &&& (decision is ParseFailed ==> (r matches Err(e)
                    && e matches Error::UrlParse(u) && u@ == url@))
                &&& (decision is RegisterFailed ==> (r matches Err(e)
                    && e matches Error::PeerCreation(u) && u@ == url@))
                &&& (decision is Registered && start_code != 0
                    ==> r == Err::<AsyncReceiver, Error>(Error::Start))
            }),
            r matches Ok(rx) ==> {
                &&& rx.context().handle_id() == created.handle
                &&& !rx.context().is_released()
                &&& rx.stats_snapshot() is None
                &&& rx.buffered() == Seq::<u8>::empty()
                &&& rx.profile() == profile
            },
    {
        Self::bind_with_options(profile, url, ReceiverOptions::new(), created, parsed,
            register_code, start_code)
    }

    /// Bind a receiver with custom options: take ownership of the created
    /// context, prepare and register the peer, and start — each native
    /// outcome mapped to its one failure kind.  The stats callback is
    /// registered at construction with the fixed interval, writing into
    /// the cell a fresh session holds empty.
    pub fn bind_with_options(profile: Profile, url: &str, options: ReceiverOptions,
        created: CreateOutcome, parsed: ParseOutcome, register_code: i32, start_code: i32)
        -> (r: Result<AsyncReceiver, Error>)
        ensures
            r is Ok <==> created.ok()
                && add_peer_decision(url@, parsed, register_code) is Registered
                && start_code == 0,
            !created.ok() ==> r == Err::<AsyncReceiver, Error>(Error::ContextCreation),
            created.ok() ==> ({
                let decision = add_peer_decision(url@, parsed, register_code);
                &&& (decision is RejectedAddress ==> (r matches Err(e)
                    && e matches Error::NulError(u) && u@ == url@))
                &&& (decision is ParseFailed ==> (r matches Err(e)
                    && e matches Error::UrlParse(u) && u@ == url@))
                &&& (decision is RegisterFailed ==> (r matches Err(e)
                    && e matches Error::PeerCreation(u) && u@ == url@))
                &&& (decision is Registered && start_code != 0
                    ==> r == Err::<AsyncReceiver, Error>(Error::Start))
            }),
            r matches Ok(rx) ==> {
                &&& rx.context().handle_id() == created.handle
                &&& !rx.context().is_released()
                &&& rx.stats_snapshot() is None
                &&& rx.buffered() == Seq::<u8>::empty()
                &&& rx.profile() == profile
            },
    {
        let ctx = Context::from_create(created)?;
        let _config = prepare_peer_config(url, parsed, &options)?;
        if register_code != 0 {
            return Err(Error::PeerCreation(String::from_str(url)));
        }
        if start_code != 0 {
            return Err(Error::Start);
        }
        Ok(AsyncReceiver {
            ctx,
            stats: ReceiverStatsCell::new(),
            buf: StreamBuf::new(),
            tier: profile,
        })
    }

    /// The raw handle value, for handing to a native call.
    pub fn raw(&self) -> (r: u64)
        requires
            !self.context().is_released(),
        ensures
            r == self.context().handle_id(),
    {
        self.ctx.raw()
    }

    /// Receive after a readiness wakeup, given what the zero-timeout
    /// native poll answered.  No data despite the wakeup is the benign
    /// race: the answer is "nothing", and the task re-registers.
    pub fn recv(&self, outcome: ReadOutcome) -> (r: Result<Option<DataBlock>, Error>)
        requires
            !self.context().is_released(),
        ensures
            outcome.code < 0 ==> r == Err::<Option<DataBlock>, Error>(Error::Read),
            outcome.code >= 0 && (outcome.code == 0 || outcome.block is None)
                ==> r == Ok::<Option<DataBlock>, Error>(None),
            outcome.code > 0 && outcome.block is Some
                ==> r == Ok::<Option<DataBlock>, Error>(Some(outcome.block->0)),
    {
        interpret_read(outcome)
    }

    /// Try to receive without blocking, given what the zero-timeout
    /// native poll answered.  Nothing immediately available is not an
    /// error.
    pub fn try_recv(&self, outcome: ReadOutcome) -> (r: Result<Option<DataBlock>, Error>)
        requires
            !self.context().is_released(),
        ensures
            outcome.code < 0 ==> r == Err::<Option<DataBlock>, Error>(Error::Read),
            outcome.code >= 0 && (outcome.code == 0 || outcome.block is None)
                ==> r == Ok::<Option<DataBlock>, Error>(None),
            outcome.code > 0 && outcome.block is Some
                ==> r == Ok::<Option<DataBlock>, Error>(Some(outcome.block->0)),
    {
        interpret_read(outcome)
    }

    /// Receive with a deadline.  A timeout the native millisecond unit
    /// cannot represent is refused rather than truncated; a deadline that
    /// elapses first yields "no data", distinguishing deadline elapse
    /// from a native failure; otherwise the poll outcome is interpreted
    /// as for `recv`.
    pub fn recv_timeout(&self, timeout_ms: u64, deadline_elapsed: bool,
        outcome: Option<ReadOutcome>) -> (r: Result<Option<DataBlock>, Error>)
        requires
            !self.context().is_released(),
            timeout_ms <= i32::MAX as u64 && !deadline_elapsed ==> outcome is Some,
        ensures
            timeout_ms > i32::MAX as u64
                ==> r == Err::<Option<DataBlock>, Error>(Error::TimeoutOverflow),
            timeout_ms <= i32::MAX as u64 && deadline_elapsed
                ==> r == Ok::<Option<DataBlock>, Error>(None),
            timeout_ms <= i32::MAX as u64 && !deadline_elapsed ==> ({
                let polled = outcome->0;
                &&& (polled.code < 0 ==> r == Err::<Option<DataBlock>, Error>(Error::Read))
                &&& (polled.code >= 0 && (polled.code == 0 || polled.block is None)
                    ==> r == Ok::<Option<DataBlock>, Error>(None))
                &&& (polled.code > 0 && polled.block is Some
                    ==> r == Ok::<Option<DataBlock>, Error>(Some(polled.block->0)))
            }),
    {
        if timeout_ms > i32::MAX as u64 {
            return Err(Error::TimeoutOverflow);
        }
        if deadline_elapsed {
            return Ok(None);
        }
        match outcome {
            Some(polled) => interpret_read(polled),
            None => Ok(None),
        }
    }

    /// What one stats-callback invocation does to this session's cell:
    /// a receiver-shaped payload replaces the snapshot wholesale, any
    /// other shape leaves it untouched; the native container is then
    /// freed by the driver.
    pub fn store_stats(&mut self, event: StatsEvent) -> (stored: bool)
        ensures
            final(self).context() == old(self).context(),
            final(self).buffered() == old(self).buffered(),
            event matches StatsEvent::ReceiverFlow(s)
                ==> final(self).stats_snapshot() == Some(s) && stored,
            event is SenderPeer
                ==> final(self).stats_snapshot() == old(self).stats_snapshot() && !stored,
    {
        self.stats.store(event)
    }

    /// The latest stats for this receiver: a non-blocking read of the
    /// cell, absent until the first callback has arrived.
    pub fn raw_stats(&self) -> (r: Option<ReceiverStats>)
        ensures
            r == self.stats_snapshot(),
    {
        self.stats.raw_stats()
    }

    /// Poll the byte stream: buffered bytes first; only with an empty
    /// buffer is the single non-blocking native poll consulted.  A block
    /// larger than the request is split, its fitting prefix delivered
    /// and its tail retained in order.
    pub fn poll_read(&mut self, want: usize, outcome: Option<ReadOutcome>) -> (r: PollRead)
        requires
            !old(self).context().is_released(),
            old(self).buffered().len() == 0 <==> outcome is Some,
        ensures
            final(self).context() == old(self).context(),
            final(self).stats_snapshot() == old(self).stats_snapshot(),
            old(self).buffered().len() > 0 ==> (r matches PollRead::Filled(out) && ({
                let g = crate::stream::granted(want, old(self).buffered().len() as int);
                &&& out@ == old(self).buffered().take(g)
                &&& final(self).buffered() == old(self).buffered().skip(g)
            })),
            old(self).buffered().len() == 0 ==> ({
                let polled = outcome->0;
                &&& (polled.code < 0 ==> r is Failed
                    && final(self).buffered() == old(self).buffered())
                &&& (polled.code >= 0 && (polled.code == 0 || polled.block is None)
                    ==> r is Pending && final(self).buffered() == old(self).buffered())
                &&& (polled.code > 0 ==> (polled.block matches Some(block)
                    ==> (!block.is_released()
                    ==> (r matches PollRead::Filled(out) && ({
                        let g = crate::stream::granted(want, block.payload_view().len() as int);
                        &&& out@ == block.payload_view().take(g)
                        &&& final(self).buffered() == block.payload_view().skip(g)
                    })))))
                &&& (polled.code > 0 ==> (polled.block matches Some(block)
                    ==> (block.is_released()
                    ==> r is Pending && final(self).buffered() == old(self).buffered())))
            }),
    {
        self.buf.poll_read(want, outcome)
    }

    /// End ownership of the native context.  The first call yields the
    /// raw handle for the single native destroy call; every later call
    /// yields nothing.
    pub fn release(&mut self) -> (r: Option<u64>)
        ensures
            (final(self).context(), r) == old(self).context().release_result(),
            final(self).context().is_released(),
            !old(self).context().is_released() ==> r == Some(old(self).context().handle_id()),
            old(self).context().is_released() ==> r is None,
    {
        self.ctx.release()
    }
}

} // verus!
