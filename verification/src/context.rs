//! Ownership of one native session handle, released exactly once.
//!
//! A `Context` takes ownership of the raw handle a successful native
//! creation call produced.  The only way to end that ownership is
//! `release`, which yields the raw handle for the single native destroy
//! call; a second `release` yields nothing, so no exit path can free the
//! handle twice.

use vstd::prelude::*;
use crate::error::Error;
use crate::native::CreateOutcome;

verus! {

/// An owned native session handle with its release state.
#[derive(Debug, Clone, Copy, PartialEq, Eq, Structural)]
pub struct Context {
    handle: u64,
    released: bool,
}

impl Context {
    /// The raw value of the owned handle.
    pub closed spec fn handle_id(self) -> u64 {
        self.handle
    }

    /// Whether the handle has already been released.
    pub closed spec fn is_released(self) -> bool {
        self.released
    }

    /// A context owns a non-null handle.
    pub open spec fn wf(self) -> bool {
        self.handle_id() != 0
    }

    /// Take ownership of the handle a native creation call produced.
    /// A non-zero return code or a null handle is a creation failure.
    pub fn from_create(outcome: CreateOutcome) -> (r: Result<Context, Error>)
        ensures
            outcome.ok() <==> r is Ok,
            r matches Ok(ctx) ==> ctx.handle_id() == outcome.handle && !ctx.is_released()
                && ctx.wf(),
            r matches Err(e) ==> e is ContextCreation,
    {
        if outcome.code != 0 || outcome.handle == 0 {
            Err(Error::ContextCreation)
        } else {
            Ok(Context { handle: outcome.handle, released: false })
        }
    }

    /// The raw handle value, for handing to a native call.
    pub fn raw(&self) -> (r: u64)
        requires
            !self.is_released(),
        ensures
            r == self.handle_id(),
    {
        self.handle
    }

    /// The context and release answer that one `release` call leaves.
    pub closed spec fn release_result(self) -> (Context, Option<u64>) {
        if self.is_released() {
            (self, None)
        } else {
            (
                Context { handle: self.handle_id(), released: true },
                Some(self.handle_id()),
            )
        }
    }

    /// End ownership.  The first call yields the raw handle, to be given
    /// to the single native destroy call; every later call yields nothing,
    /// so the handle cannot be destroyed twice.
    pub fn release(&mut self) -> (r: Option<u64>)
        ensures
            (*final(self), r) == old(self).release_result(),
            final(self).is_released(),
            final(self).handle_id() == old(self).handle_id(),
            !old(self).is_released() ==> r == Some(old(self).handle_id()),
            old(self).is_released() ==> r is None,
    {
        if self.released {
            None
        } else {
            self.released = true;
            Some(self.handle)
        }
    }
}

/// Releasing a context a second time yields no handle: whatever state the
/// context is in, the first `release` is the only one that can reach the
/// native destroy call.
pub proof fn lemma_release_exactly_once(ctx: Context)
    ensures
        ({
            let (once, first) = ctx.release_result();
            let (twice, second) = once.release_result();
            &&& (!ctx.is_released() ==> first == Some(ctx.handle_id()))
            &&& once.is_released()
            &&& once.handle_id() == ctx.handle_id()
            &&& second is None
            &&& twice == once
        }),
{
}

} // verus!
