//! The sending endpoint session.
//!
//! A `Sender` owns one native context and a started flag.  A send
//! packages the byte slice, plus an optional flow identifier, into a
//! transient descriptor for the native write call; a negative write code
//! is a send failure, and a non-negative one is the accepted byte count,
//! which the caller should compare against the input length to detect
//! partial acceptance.

use vstd::prelude::*;
use crate::context::Context;
use crate::error::Error;
use crate::native::{
    add_peer_decision, peer_config_from_parse, start_outcome, CreateOutcome, ParseOutcome,
};
use crate::profile::Profile;

verus! {

/// The transient descriptor handed by reference to the native write
/// call: the payload and flow identifier, with every other field zero.
#[derive(Debug)]
pub struct SendDescriptor {
    /// The bytes to send.
    pub payload: Vec<u8>,
    /// Timestamp field, left zero for the engine to fill.
    pub ts_ntp: u64,
    /// Flow identifier; zero when the caller named none.
    pub flow_id: u32,
    /// Flags field, left zero.
    pub flags: u32,
    /// Sequence field, left zero for the engine to fill.
    pub seq: u64,
    /// Virtual source port, left zero.
    pub virt_src_port: u16,
    /// Virtual destination port, left zero.
    pub virt_dst_port: u16,
}

/// What a send comes to: refused before `start`, a send failure on a
/// negative native write code, else the accepted byte count.
pub open spec fn send_outcome(started: bool, write_code: i32) -> Result<usize, Error> {
    if !started {
        Err(Error::NotStarted)
    } else if write_code < 0 {
        Err(Error::Send)
    } else {
        Ok(write_code as usize)
    }
}

/// A sending endpoint session: one owned native context, its started
/// flag, and the count of peers registered on it.
#[derive(Debug)]
pub struct Sender {
    ctx: Context,
    started: bool,
    peers: u64,
    tier: Profile,
}

impl Sender {
    /// The owned native context.
    pub closed spec fn context(self) -> Context {
        self.ctx
    }

    /// Whether `start` has succeeded on this session.
    pub closed spec fn is_started(self) -> bool {
        self.started
    }

    /// How many peers have been registered on this session.
    pub closed spec fn peer_total(self) -> u64 {
        self.peers
    }

    /// The profile the session was created with.
    pub closed spec fn profile(self) -> Profile {
        self.tier
    }

    /// Create a sender session from what the native creation call for
    /// the given profile yielded.  A non-zero code or a null handle is a
    /// context-creation failure.
    pub fn new(profile: Profile, created: CreateOutcome) -> (r: Result<Sender, Error>)
        ensures
            created.ok() <==> r is Ok,
            r matches Ok(tx) ==> {
                &&& tx.context().handle_id() == created.handle
                &&& !tx.context().is_released()
                &&& !tx.is_started()
                &&& tx.peer_total() == 0
                &&& tx.profile() == profile
            },
            r matches Err(e) ==> e is ContextCreation,
    {
        let ctx = Context::from_create(created)?;
        Ok(Sender { ctx, started: false, peers: 0, tier: profile })
    }

    /// The raw handle value, for handing to a native call.
    pub fn raw(&self) -> (r: u64)
        requires
            !self.context().is_released(),
        ensures
            r == self.context().handle_id(),
    {
        self.ctx.raw()
    }

    /// Whether `start` has succeeded, for the driver to decide whether a
    /// native start call is due.
    pub fn started(&self) -> (r: bool)
        ensures
            r == self.is_started(),
    {
        self.started
    }

    /// Register a peer by address, given what the native parse and
    /// register calls answered.  An address with an embedded terminator
    /// byte is rejected before either outcome is looked at; a parse
    /// failure and a register failure each carry the address back.
    pub fn add_peer(&mut self, url: &str, parsed: ParseOutcome, register_code: i32)
        -> (r: Result<(), Error>)
        requires
            !old(self).context().is_released(),
            old(self).peer_total() < u64::MAX,
        ensures
            final(self).context() == old(self).context(),
            final(self).is_started() == old(self).is_started(),
            final(self).profile() == old(self).profile(),
            ({
                let decision = add_peer_decision(url@, parsed, register_code);
                &&& (decision is RejectedAddress ==> (r matches Err(e)
                    && e matches Error::NulError(u) && u@ == url@))
                &&& (decision is ParseFailed ==> (r matches Err(e)
                    && e matches Error::UrlParse(u) && u@ == url@))
                &&& (decision is RegisterFailed ==> (r matches Err(e)
                    && e matches Error::PeerCreation(u) && u@ == url@))
                &&& (decision is Registered <==> r is Ok)
                &&& (decision is Registered ==> final(self).peer_total()
                    == old(self).peer_total() + 1)
                &&& (!(decision is Registered) ==> final(self).peer_total()
                    == old(self).peer_total())
            }),
    {
        let _config = peer_config_from_parse(url, parsed)?;
        if register_code != 0 {
            return Err(Error::PeerCreation(String::from_str(url)));
        }
        self.peers = self.peers + 1;
        Ok(())
    }

    /// Record a successful native start, or refuse one.  A session that
    /// already started answers "already started" without consulting the
    /// code; otherwise a non-zero code is a start failure and a zero code
    /// marks the session started.
    pub fn start(&mut self, code: i32) -> (r: Result<(), Error>)
        requires
            !old(self).context().is_released(),
        ensures
            final(self).context() == old(self).context(),
            final(self).profile() == old(self).profile(),
            final(self).peer_total() == old(self).peer_total(),
            r == start_outcome(old(self).is_started(), code),
            old(self).is_started() ==> r == Err::<(), Error>(Error::AlreadyStarted)
                && final(self).is_started(),
            !old(self).is_started() && code != 0 ==> r == Err::<(), Error>(Error::Start)
                && !final(self).is_started(),
            !old(self).is_started() && code == 0 ==> r is Ok && final(self).is_started(),
            r is Ok <==> !old(self).is_started() && code == 0,
    {
        if self.started {
            return Err(Error::AlreadyStarted);
        }
        if code != 0 {
            return Err(Error::Start);
        }
        self.started = true;
        Ok(())
    }

    /// Package bytes into the transient descriptor for one native write
    /// call: the payload and the given flow identifier, every other
    /// field zero.  Refused before `start`.
    pub fn send_descriptor(&self, data: &[u8], flow_id: u32)
        -> (r: Result<SendDescriptor, Error>)
        requires
            !self.context().is_released(),
        ensures
            !self.is_started() ==> r == Err::<SendDescriptor, Error>(Error::NotStarted),
            r is Ok <==> self.is_started(),
            r matches Ok(d) ==> {
                &&& d.payload@ == data@
                &&& d.ts_ntp == 0
                &&& d.flow_id == flow_id
                &&& d.flags == 0
                &&& d.seq == 0
                &&& d.virt_src_port == 0
                &&& d.virt_dst_port == 0
            },
    {
        if !self.started {
            return Err(Error::NotStarted);
        }
        Ok(SendDescriptor {
            payload: vstd::slice::slice_to_vec(data),
            ts_ntp: 0,
            flow_id,
            flags: 0,
            seq: 0,
            virt_src_port: 0,
            virt_dst_port: 0,
        })
    }

    /// Send data with the default flow identifier, given what the native
    /// write call answered.  Refused before `start`; a negative code is a
    /// send failure, a non-negative one the accepted byte count.
    pub fn send(&self, data: &[u8], write_code: i32) -> (r: Result<usize, Error>)
        requires
            !self.context().is_released(),
        ensures
            r == send_outcome(self.is_started(), write_code),
    {
        let _descriptor = self.send_descriptor(data, 0)?;
        if write_code < 0 {
            return Err(Error::Send);
        }
        Ok(write_code as usize)
    }

    /// Send data with a specific flow identifier, given what the native
    /// write call answered.  The flow identifier only shapes the
    /// descriptor; the answer is interpreted exactly as for `send`.
    pub fn send_with_flow_id(&self, data: &[u8], flow_id: u32, write_code: i32)
        -> (r: Result<usize, Error>)
        requires
            !self.context().is_released(),
        ensures
            r == send_outcome(self.is_started(), write_code),
    {
        let _descriptor = self.send_descriptor(data, flow_id)?;
        if write_code < 0 {
            return Err(Error::Send);
        }
        Ok(write_code as usize)
    }

    /// End ownership of the native context.  The first call yields the
    /// raw handle for the single native destroy call; every later call
    /// yields nothing.
    pub fn release(&mut self) -> (r: Option<u64>)
        ensures
            (final(self).context(), r) == old(self).context().release_result(),
            final(self).is_started() == old(self).is_started(),
            final(self).peer_total() == old(self).peer_total(),
            final(self).profile() == old(self).profile(),
            final(self).context().is_released(),
            !old(self).context().is_released() ==> r == Some(old(self).context().handle_id()),
            old(self).context().is_released() ==> r is None,
    {
        self.ctx.release()
    }
}

} // verus!
