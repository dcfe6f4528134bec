//! The worker-offload bridging design, and the asynchronous sender
//! built on it.
//!
//! Each asynchronous operation is dispatched as one unit of blocking
//! work to a background worker; the result comes back through a one-shot
//! completion, and a worker that fails to complete — a panic, a pool
//! shutdown — is reported as the dedicated background-task failure kind,
//! never confused with a native-level error.  This design is portable
//! and simple, at the cost of one parked worker per in-flight call; a
//! cancelled await merely stops waiting, the dispatched call still runs
//! to completion on the worker.  The readiness-notification design is
//! the alternative and serves the receiving side.
//!
//! The worker pool, the suspension, and the native calls are the
//! driver's; the connect sequence the worker runs, the state the future
//! steps through, and every result mapping are verified here.

use vstd::prelude::*;
use crate::context::Context;
use crate::error::Error;
use crate::native::{add_peer_decision, CreateOutcome, ParseOutcome};
use crate::options::{PeerConfig, SenderOptions};
use crate::profile::Profile;
use crate::sender::SendDescriptor;
use crate::stats::{SenderStats, SenderStatsCell, StatsEvent};

verus! {

/// What a send's blocking work computes from the native write code: a
/// negative code is a send failure, a non-negative one the accepted
/// byte count.
pub open spec fn send_result(write_code: i32) -> Result<usize, Error> {
    if write_code < 0 {
        Err(Error::Send)
    } else {
        Ok(write_code as usize)
    }
}

/// An asynchronous sender: one owned native context, started by its
/// connect sequence, with its stats cell.
#[derive(Debug)]
pub struct AsyncSender {
    ctx: Context,
    stats: SenderStatsCell,
    tier: Profile,
}

/// Where a pending connect stands.
#[derive(Debug, Clone, Copy, PartialEq, Eq, Structural)]
pub enum ConnectState {
    /// Nothing dispatched yet.
    Idle,
    /// The blocking connect work is running on a worker.
    Busy,
}

/// What one poll of a pending connect asks the driver to do.
#[derive(Debug, Clone, Copy, PartialEq, Eq, Structural)]
pub enum ConnectAction {
    /// Dispatch the blocking connect work to a worker.
    Dispatch,
    /// The work is already running; await its completion.
    Await,
}

/// How awaiting the dispatched connect work ended.
#[derive(Debug)]
pub enum ConnectJoin {
    /// The worker completed and handed its result through.
    Finished(Result<AsyncSender, Error>),
    /// The worker failed to complete; carries the reason.
    Failed(String),
}

/// A pending connect: the connect parameters and where the dispatched
/// work stands.
#[derive(Debug)]
pub struct Connect {
    profile: Profile,
    url: String,
    options: SenderOptions,
    state: ConnectState,
}

impl Connect {
    /// Whether the blocking work has been dispatched.
    pub closed spec fn is_busy(self) -> bool {
        self.state is Busy
    }

    /// The profile the session is to be created with.
    pub closed spec fn profile(self) -> Profile {
        self.profile
    }

    /// The address to connect to.
    pub closed spec fn url_view(self) -> Seq<char> {
        self.url@
    }

    /// The tuning options to apply to the parsed peer configuration.
    pub closed spec fn options(self) -> SenderOptions {
        self.options
    }

    /// The connect parameters, for the driver to hand to the dispatched
    /// work.
    pub fn params(&self) -> (r: (Profile, &String, SenderOptions))
        ensures
            r.0 == self.profile(),
            r.1@ == self.url_view(),
            r.2 == self.options(),
    {
        (self.profile, &self.url, self.options)
    }

    /// One poll step of the pending connect: the first poll dispatches
    /// the blocking work and leaves the connect busy; every later poll
    /// finds it busy and awaits the completion.
    pub fn poll_step(&mut self) -> (r: ConnectAction)
        ensures
            final(self).profile() == old(self).profile(),
            final(self).url_view() == old(self).url_view(),
            final(self).options() == old(self).options(),
            final(self).is_busy(),
            !old(self).is_busy() ==> r is Dispatch,
            old(self).is_busy() ==> r is Await,
    {
        match self.state {
            ConnectState::Idle => {
                self.state = ConnectState::Busy;
                ConnectAction::Dispatch
            },
            ConnectState::Busy => ConnectAction::Await,
        }
    }

    /// Deliver what awaiting the dispatched work yielded.  A completed
    /// worker hands its own result through unchanged; a worker that
    /// failed to complete is the background-task failure kind, distinct
    /// from every native failure kind.
    pub fn complete(join: ConnectJoin) -> (r: Result<AsyncSender, Error>)
        ensures
            join matches ConnectJoin::Finished(inner) ==> r == inner,
            join matches ConnectJoin::Failed(reason) ==> (r matches Err(e)
                && e matches Error::JoinError(m) && m@ == reason@),
    {
        match join {
            ConnectJoin::Finished(inner) => inner,
            ConnectJoin::Failed(reason) => Err(Error::JoinError(reason)),
        }
    }
}

impl AsyncSender {
    /// The owned native context.
    pub closed spec fn context(self) -> Context {
        self.ctx
    }

    /// The latest stats snapshot, or absence before the first callback.
    pub closed spec fn stats_snapshot(self) -> Option<SenderStats> {
        self.stats.snapshot()
    }

    /// The profile the session was created with.
    pub closed spec fn profile(self) -> Profile {
        self.tier
    }

    /// Begin connecting to a receiver with default options; the answer
    /// is a pending connect with nothing dispatched yet.
    pub fn connect(profile: Profile, url: &str) -> (r: Connect)
        ensures
            r.profile() == profile,
            r.url_view() == url@,
            r.options() == SenderOptions::unset(),
            !r.is_busy(),
    {
        Self::connect_with_options(profile, url, SenderOptions::new())
    }

    /// Begin connecting to a receiver with custom options; the answer is
    /// a pending connect with nothing dispatched yet.
    pub fn connect_with_options(profile: Profile, url: &str, options: SenderOptions)
        -> (r: Connect)
        ensures
            r.profile() == profile,
            r.url_view() == url@,
            r.options() == options,
            !r.is_busy(),
    {
        Connect { profile, url: String::from_str(url), options, state: ConnectState::Idle }
    }

    /// The connect sequence the dispatched worker runs: take ownership
    /// of the created context, prepare and register the peer with the
    /// options applied, and start — each native outcome mapped to its
    /// one failure kind, and the context released on every failure path
    /// past creation so that nothing partially constructed leaks.  The
    /// stats callback is registered with the fixed interval into the
    /// cell a fresh session holds empty.
    pub fn connect_blocking(profile: Profile, url: &str, options: &SenderOptions,
        created: CreateOutcome, parsed: ParseOutcome, register_code: i32, start_code: i32)
        -> (r: Result<AsyncSender, Error>)
        ensures
            r is Ok <==> created.ok()
                && add_peer_decision(url@, parsed, register_code) is Registered
                && start_code == 0,
            !created.ok() ==> r == Err::<AsyncSender, Error>(Error::ContextCreation),
            created.ok() ==> ({
                let decision = add_peer_decision(url@, parsed, register_code);
                &&& (decision is RejectedAddress ==> (r matches Err(e)
                    && e matches Error::NulError(u) && u@ == url@))
                &&& (decision is ParseFailed ==> (r matches Err(e)
                    && e matches Error::UrlParse(u) && u@ == url@))
                &&& (decision is RegisterFailed ==> (r matches Err(e)
                    && e matches Error::PeerCreation(u) && u@ == url@))
                &&& (decision is Registered && start_code != 0
                    ==> r == Err::<AsyncSender, Error>(Error::Start))
            }),
            r matches Ok(tx) ==> {
                &&& tx.context().handle_id() == created.handle
                &&& !tx.context().is_released()
                &&& tx.stats_snapshot() is None
                &&& tx.profile() == profile
            },
    {
        let mut ctx = Context::from_create(created)?;
        let prepared = Self::prepare_peer_config(url, parsed, options);
        let _config = match prepared {
            Ok(config) => config,
            Err(e) => {
                let _handle = ctx.release();
                return Err(e);
            },
        };
        if register_code != 0 {
            let _handle = ctx.release();
            return Err(Error::PeerCreation(String::from_str(url)));
        }
        if start_code != 0 {
            let _handle = ctx.release();
            return Err(Error::Start);
        }
        Ok(AsyncSender { ctx, stats: SenderStatsCell::new(), tier: profile })
    }

    /// Interpret the native address-parse outcome and apply the caller's
    /// options: the configuration handed back is the parsed one with
    /// every explicitly set option written over it, ready for the native
    /// register call.
    pub fn prepare_peer_config(url: &str, parsed: ParseOutcome, options: &SenderOptions)
        -> (r: Result<PeerConfig, Error>)
        ensures
            crate::native::has_nul(url@) ==> (r matches Err(e)
                && e matches Error::NulError(u) && u@ == url@),
            !crate::native::has_nul(url@) && !parsed.ok() ==> (r matches Err(e)
                && e matches Error::UrlParse(u) && u@ == url@),
            !crate::native::has_nul(url@) && parsed.ok()
                ==> r == Ok::<PeerConfig, Error>(options.applied_to(parsed.config->0)),
            r is Ok <==> !crate::native::has_nul(url@) && parsed.ok(),
    {
        let mut config = crate::native::peer_config_from_parse(url, parsed)?;
        options.apply_to_peer_config(&mut config);
        Ok(config)
    }

    /// The raw handle value, for handing to a native call.  A connected
    /// sender's raw handle may be copied to the worker thread: the
    /// native engine documents context-level data operations as safe to
    /// invoke from another thread, while configuration changes are not.
    pub fn raw(&self) -> (r: u64)
        requires
            !self.context().is_released(),
        ensures
            r == self.context().handle_id(),
    {
        self.ctx.raw()
    }

    /// Send data as one unit of dispatched blocking work, given how the
    /// await ended.  The worker packages the bytes into the transient
    /// descriptor and maps the native write code; a worker that failed
    /// to complete is the background-task failure kind.
    pub fn send(&self, data: &[u8], join: SendJoin) -> (r: Result<usize, Error>)
        requires
            !self.context().is_released(),
        ensures
            join matches SendJoin::Finished(code) ==> r == send_result(code),
            join matches SendJoin::Failed(reason) ==> (r matches Err(e)
                && e matches Error::JoinError(m) && m@ == reason@),
    {
        match join {
            SendJoin::Finished(code) => {
                let _descriptor = SendDescriptor {
                    payload: vstd::slice::slice_to_vec(data),
                    ts_ntp: 0,
                    flow_id: 0,
                    flags: 0,
                    seq: 0,
                    virt_src_port: 0,
                    virt_dst_port: 0,
                };
                if code < 0 {
                    Err(Error::Send)
                } else {
                    Ok(code as usize)
                }
            },
            SendJoin::Failed(reason) => Err(Error::JoinError(reason)),
        }
    }

    /// Write directly without dispatching: the non-blocking stream-write
    /// path, mapping the native write code as a send does.
    pub fn poll_write(&self, data: &[u8], write_code: i32) -> (r: Result<usize, Error>)
        requires
            !self.context().is_released(),
        ensures
            r == send_result(write_code),
    {
        let _descriptor = SendDescriptor {
            payload: vstd::slice::slice_to_vec(data),
            ts_ntp: 0,
            flow_id: 0,
            flags: 0,
            seq: 0,
            virt_src_port: 0,
            virt_dst_port: 0,
        };
        if write_code < 0 {
            Err(Error::Send)
        } else {
            Ok(write_code as usize)
        }
    }

    /// What one stats-callback invocation does to this session's cell:
    /// a sender-shaped payload replaces the snapshot wholesale, any
    /// other shape leaves it untouched; the native container is then
    /// freed by the driver.
    pub fn store_stats(&mut self, event: StatsEvent) -> (stored: bool)
        ensures
            final(self).context() == old(self).context(),
            event matches StatsEvent::SenderPeer(s)
                ==> final(self).stats_snapshot() == Some(s) && stored,
            event is ReceiverFlow
                ==> final(self).stats_snapshot() == old(self).stats_snapshot() && !stored,
    {
        self.stats.store(event)
    }

    /// The latest stats for this sender: a non-blocking read of the
    /// cell, absent until the first callback has arrived.
    pub fn raw_stats(&self) -> (r: Option<SenderStats>)
        ensures
            r == self.stats_snapshot(),
    {
        self.stats.raw_stats()
    }

    /// End ownership of the native context.  The first call yields the
    /// raw handle for the single native destroy call; every later call
    /// yields nothing.
    pub fn release(&mut self) -> (r: Option<u64>)
        ensures
            (final(self).context(), r) == old(self).context().release_result(),
            final(self).context().is_released(),
            !old(self).context().is_released() ==> r == Some(old(self).context().handle_id()),
            old(self).context().is_released() ==> r is None,
    {
        self.ctx.release()
    }
}

/// How awaiting one dispatched blocking send ended.
#[derive(Debug)]
pub enum SendJoin {
    /// The worker completed; carries the native write code it got.
    Finished(i32),
    /// The worker failed to complete; carries the reason.
    Failed(String),
}

} // verus!
