//! The byte-stream adapter over block-oriented reads.
//!
//! A reader asks for at most `want` bytes at a time, while the native
//! engine delivers whole blocks.  The adapter keeps the unread tail of
//! an over-sized block in a leftover buffer and satisfies later requests
//! from it first, in first-in-first-out byte order; only when the buffer
//! is empty may a single non-blocking native poll be issued.  No data
//! and an empty buffer signal "would block" — never zero bytes, which
//! would mean end of stream.

use vstd::prelude::*;
use vstd::slice::slice_index_get;
use crate::receiver::ReadOutcome;

verus! {

/// How many bytes a request for `want` is granted out of `available`.
pub open spec fn granted(want: usize, available: int) -> int {
    if want as int <= available {
        want as int
    } else {
        available
    }
}

/// What one poll of the byte stream comes to.
#[derive(Debug)]
pub enum PollRead {
    /// Bytes were delivered, from the leftover buffer or a fresh block.
    Filled(Vec<u8>),
    /// No buffered data and no block available: the stream would block,
    /// and the task re-registers for readiness rather than erroring.
    Pending,
    /// The native poll reported a read failure.
    Failed,
}

/// The leftover-byte buffer of one session's byte-stream adapter.
#[derive(Debug)]
pub struct StreamBuf {
    leftover: Vec<u8>,
}

impl StreamBuf {
    /// The bytes held back from earlier blocks, oldest first.
    pub closed spec fn buffered(self) -> Seq<u8> {
        self.leftover@
    }

    /// An empty adapter buffer, as a session constructs it.
    pub fn new() -> (r: StreamBuf)
        ensures
            r.buffered() == Seq::<u8>::empty(),
    {
        StreamBuf { leftover: Vec::new() }
    }

    /// Satisfy a request from the leftover buffer alone: the first
    /// `granted` bytes leave, in order, and exactly they are consumed.
    /// Answers nothing when the buffer is empty — only then may the
    /// driver poll the native engine.
    pub fn read_buffered(&mut self, want: usize) -> (r: Option<Vec<u8>>)
        ensures
            old(self).buffered().len() == 0 ==> r is None
                && *final(self) == *old(self),
            old(self).buffered().len() > 0 ==> (r matches Some(out) && ({
                let g = granted(want, old(self).buffered().len() as int);
                &&& out@ == old(self).buffered().take(g)
                &&& final(self).buffered() == old(self).buffered().skip(g)
            })),
    {
        if self.leftover.len() == 0 {
            return None;
        }
        Some(self.take_front(want))
    }

    /// Deliver the fitting prefix of a freshly polled block and retain
    /// the remainder for the next request, behind what is already
    /// buffered, preserving byte order.
    pub fn accept_block(&mut self, payload: &[u8], want: usize) -> (out: Vec<u8>)
        requires
            old(self).buffered().len() == 0,
        ensures
            ({
                let g = granted(want, payload@.len() as int);
                &&& out@ == payload@.take(g)
                &&& final(self).buffered() == payload@.skip(g)
            }),
    {
        let total = payload.len();
        let g = if want <= total {
            want
        } else {
            total
        };
        let mut out: Vec<u8> = Vec::new();
        let mut i: usize = 0;
        while i < g
            invariant
                0 <= i <= g <= total,
                total == payload@.len(),
                out@ == payload@.take(i as int),
            decreases g - i,
        {
            out.push(*slice_index_get(payload, i));
            i = i + 1;
        }
        let mut rest: Vec<u8> = Vec::new();
        let mut j: usize = g;
        while j < total
            invariant
                g <= j <= total,
                total == payload@.len(),
                rest@ == payload@.subrange(g as int, j as int),
            decreases total - j,
        {
            rest.push(*slice_index_get(payload, j));
            j = j + 1;
        }
        proof {
            assert(rest@ =~= payload@.skip(g as int));
        }
        self.leftover = rest;
        out
    }

    /// Poll the byte stream: buffered bytes first, else interpret the
    /// single non-blocking native poll the driver made.  A negative code
    /// is a failure; no block means the stream would block; a block is
    /// split, its fitting prefix delivered and its tail retained.
    pub fn poll_read(&mut self, want: usize, outcome: Option<ReadOutcome>) -> (r: PollRead)
        requires
            old(self).buffered().len() == 0 <==> outcome is Some,
        ensures
            old(self).buffered().len() > 0 ==> (r matches PollRead::Filled(out) && ({
                let g = granted(want, old(self).buffered().len() as int);
                &&& out@ == old(self).buffered().take(g)
                &&& final(self).buffered() == old(self).buffered().skip(g)
            })),
            old(self).buffered().len() == 0 ==> ({
                let polled = outcome->0;
                &&& (polled.code < 0 ==> r is Failed && *final(self) == *old(self))
                &&& (polled.code >= 0 && (polled.code == 0 || polled.block is None)
                    ==> r is Pending && *final(self) == *old(self))
                &&& (polled.code > 0 ==> (polled.block matches Some(block)
                    ==> (!block.is_released()
                    ==> (r matches PollRead::Filled(out) && ({
                        let g = granted(want, block.payload_view().len() as int);
                        &&& out@ == block.payload_view().take(g)
                        &&& final(self).buffered() == block.payload_view().skip(g)
                    })))))
                &&& (polled.code > 0 ==> (polled.block matches Some(block)
                    ==> (block.is_released()
                    ==> r is Pending && *final(self) == *old(self))))
            }),
    {
        match self.read_buffered(want) {
            Some(out) => PollRead::Filled(out),
            None => {
                let polled = match outcome {
                    Some(polled) => polled,
                    None => {
                        return PollRead::Pending;
                    },
                };
                if polled.code < 0 {
                    return PollRead::Failed;
                }
                if polled.code == 0 {
                    return PollRead::Pending;
                }
                match polled.block {
                    None => PollRead::Pending,
                    Some(block) => {
                        if block.released() {
                            return PollRead::Pending;
                        }
                        let out = self.accept_block(block.payload(), want);
                        PollRead::Filled(out)
                    },
                }
            },
        }
    }

    /// Take the first `granted` bytes out of the non-empty buffer.
    fn take_front(&mut self, want: usize) -> (out: Vec<u8>)
        ensures
            ({
                let g = granted(want, old(self).buffered().len() as int);
                &&& out@ == old(self).buffered().take(g)
                &&& final(self).buffered() == old(self).buffered().skip(g)
            }),
    {
        let total = self.leftover.len();
        let g = if want <= total {
            want
        } else {
            total
        };
        let mut out: Vec<u8> = Vec::new();
        let mut i: usize = 0;
        while i < g
            invariant
                0 <= i <= g <= total,
                total == self.leftover@.len(),
                out@ == self.leftover@.take(i as int),
            decreases g - i,
        {
            out.push(self.leftover[i]);
            i = i + 1;
        }
        let mut rest: Vec<u8> = Vec::new();
        let mut j: usize = g;
        while j < total
            invariant
                g <= j <= total,
                total == self.leftover@.len(),
                rest@ == self.leftover@.subrange(g as int, j as int),
            decreases total - j,
        {
            rest.push(self.leftover[j]);
            j = j + 1;
        }
        proof {
            assert(rest@ =~= self.leftover@.skip(g as int));
        }
        self.leftover = rest;
        out
    }
}

/// The total delivery and the remainder that a run of requests against a
/// buffered byte sequence comes to, satisfied oldest byte first.
pub open spec fn drained(buffered: Seq<u8>, wants: Seq<usize>) -> (Seq<u8>, Seq<u8>)
    decreases wants.len(),
{
    if wants.len() == 0 {
        (Seq::<u8>::empty(), buffered)
    } else {
        let g = granted(wants[0], buffered.len() as int);
        let rest = drained(buffered.skip(g), wants.drop_first());
        (buffered.take(g) + rest.0, rest.1)
    }
}

/// Split reads lose and reorder nothing: however a buffered byte
/// sequence is carved up by a run of requests, the concatenation of what
/// the reads delivered, followed by what is still retained, is exactly
/// the original bytes in the original order.
pub proof fn lemma_split_reads_preserve_bytes(buffered: Seq<u8>, wants: Seq<usize>)
    ensures
        drained(buffered, wants).0 + drained(buffered, wants).1 == buffered,
    decreases wants.len(),
{
    if wants.len() == 0 {
        assert(drained(buffered, wants).0 + drained(buffered, wants).1 =~= buffered);
    } else {
        let g = granted(wants[0], buffered.len() as int);
        lemma_split_reads_preserve_bytes(buffered.skip(g), wants.drop_first());
        let rest = drained(buffered.skip(g), wants.drop_first());
        assert(rest.0 + rest.1 == buffered.skip(g));
        assert(drained(buffered, wants).0 == buffered.take(g) + rest.0);
        assert(drained(buffered, wants).1 == rest.1);
        assert((buffered.take(g) + rest.0) + rest.1 =~= buffered.take(g) + (rest.0 + rest.1));
        assert(buffered.take(g) + buffered.skip(g) =~= buffered);
    }
}

} // verus!
