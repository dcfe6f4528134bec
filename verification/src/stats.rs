//! Statistics snapshots and the single-slot cell the periodic native
//! callback writes into.
//!
//! The native engine invokes a stats callback on its own internal thread
//! with a tagged container.  The callback decodes the tag once into a
//! typed snapshot, replaces the cell's contents wholesale, and must then
//! free the container it was given.  `raw_stats` reads the cell without
//! blocking and yields the latest snapshot, or absence before the first
//! callback.  A driver guards the cell with mutual exclusion when the
//! callback runs on a foreign thread; the decisions verified here are
//! what each invocation does to the cell's contents.

use vstd::prelude::*;

verus! {

/// Statistics for a receiver flow.
#[derive(Debug, Clone, Copy, PartialEq, Eq, Structural)]
pub struct ReceiverStats {
    /// Number of connected peers.
    pub peer_count: u32,
    /// Flow identifier.
    pub flow_id: u32,
    /// Current bandwidth in bps.
    pub bandwidth: usize,
    /// Retry bandwidth in bps.
    pub retry_bandwidth: usize,
    /// Total packets sent (retransmit requests).
    pub sent: u64,
    /// Total packets received.
    pub received: u64,
    /// Missing packets.
    pub missing: u32,
    /// Reordered packets.
    pub reordered: u32,
    /// Recovered packets.
    pub recovered: u32,
    /// Lost packets (unrecoverable).
    pub lost: u32,
    /// Quality percentage (0-100), in whole percent.
    pub quality: u32,
    /// Round-trip time in ms.
    pub rtt: u32,
}

/// Statistics for a sender peer.
#[derive(Debug, Clone, Copy, PartialEq, Eq, Structural)]
pub struct SenderStats {
    /// Peer identifier.
    pub peer_id: u32,
    /// Current bandwidth in bps.
    pub bandwidth: usize,
    /// Retry bandwidth in bps.
    pub retry_bandwidth: usize,
    /// Total packets sent.
    pub sent: u64,
    /// Total packets received (acknowledgements).
    pub received: u64,
    /// Retransmitted packets.
    pub retransmitted: u64,
    /// Quality percentage (0-100), in whole percent.
    pub quality: u32,
    /// Round-trip time in ms.
    pub rtt: u32,
}

/// One callback invocation's payload, decoded from the native tagged
/// container exactly once at the boundary and never re-inspected
/// downstream.
#[derive(Debug, Clone, Copy, PartialEq, Eq, Structural)]
pub enum StatsEvent {
    /// The container carried receiver-flow-shaped counters.
    ReceiverFlow(ReceiverStats),
    /// The container carried sender-peer-shaped counters.
    SenderPeer(SenderStats),
}

/// The single-slot cell a receiver session's callback writes into.
#[derive(Debug, Clone, Copy, PartialEq, Eq, Structural)]
pub struct ReceiverStatsCell {
    slot: Option<ReceiverStats>,
}

impl ReceiverStatsCell {
    /// The latest snapshot, or absence before the first matching
    /// callback.
    pub closed spec fn snapshot(self) -> Option<ReceiverStats> {
        self.slot
    }

    /// The cell one callback invocation leaves: a receiver-shaped
    /// payload replaces the snapshot wholesale, any other shape leaves
    /// the cell untouched.
    pub closed spec fn store_result(self, event: StatsEvent) -> ReceiverStatsCell {
        match event {
            StatsEvent::ReceiverFlow(s) => ReceiverStatsCell { slot: Some(s) },
            StatsEvent::SenderPeer(_) => self,
        }
    }

    /// An empty cell, as a session constructs it.
    pub fn new() -> (r: ReceiverStatsCell)
        ensures
            r.snapshot() is None,
    {
        ReceiverStatsCell { slot: None }
    }

    /// What one callback invocation does to the cell.  Only a
    /// receiver-shaped payload is stored, and it supersedes the previous
    /// snapshot entirely; the answer says whether it was stored.  The
    /// native container must be freed by the driver afterwards, whatever
    /// the shape.
    pub fn store(&mut self, event: StatsEvent) -> (stored: bool)
        ensures
            *final(self) == old(self).store_result(event),
            event matches StatsEvent::ReceiverFlow(s)
                ==> final(self).snapshot() == Some(s) && stored,
            event is SenderPeer ==> *final(self) == *old(self) && !stored,
    {
        match event {
            StatsEvent::ReceiverFlow(s) => {
                self.slot = Some(s);
                true
            },
            StatsEvent::SenderPeer(_) => false,
        }
    }

    /// A non-blocking read of the cell: the latest snapshot, or absence
    /// if none has arrived yet.
    pub fn raw_stats(&self) -> (r: Option<ReceiverStats>)
        ensures
            r == self.snapshot(),
    {
        self.slot
    }
}

/// The cell a whole run of callback invocations leaves, first to last.
pub open spec fn receiver_cell_after(
    cell: ReceiverStatsCell,
    events: Seq<StatsEvent>,
) -> ReceiverStatsCell
    decreases events.len(),
{
    if events.len() == 0 {
        cell
    } else {
        receiver_cell_after(cell, events.drop_last()).store_result(events.last())
    }
}

/// A reader never observes a torn snapshot: after any run of callback
/// invocations on a cell that started empty, the visible snapshot is
/// either still absent or exactly the whole payload of one single
/// invocation — never fields of two invocations mixed.
pub proof fn lemma_snapshot_is_one_invocation(
    cell: ReceiverStatsCell,
    events: Seq<StatsEvent>,
)
    requires
        cell.snapshot() is None,
    ensures
        ({
            let seen = receiver_cell_after(cell, events).snapshot();
            seen matches Some(s) ==> exists|i: int|
                0 <= i < events.len() && events[i] == StatsEvent::ReceiverFlow(s)
        }),
    decreases events.len(),
{
    if events.len() > 0 {
        let prefix = events.drop_last();
        lemma_snapshot_is_one_invocation(cell, prefix);
        match receiver_cell_after(cell, events).snapshot() {
            Some(s) => {
                match events.last() {
                    StatsEvent::ReceiverFlow(_) => {
                        assert(events[events.len() - 1] == StatsEvent::ReceiverFlow(s));
                    },
                    StatsEvent::SenderPeer(_) => {
                        let earlier = choose|i: int|
                            0 <= i < prefix.len() && prefix[i] == StatsEvent::ReceiverFlow(s);
                        assert(events[earlier] == StatsEvent::ReceiverFlow(s));
                    },
                }
            },
            None => {},
        }
    }
}

/// The single-slot cell a sender session's callback writes into.
#[derive(Debug, Clone, Copy, PartialEq, Eq, Structural)]
pub struct SenderStatsCell {
    slot: Option<SenderStats>,
}

impl SenderStatsCell {
    /// The latest snapshot, or absence before the first matching
    /// callback.
    pub closed spec fn snapshot(self) -> Option<SenderStats> {
        self.slot
    }

    /// The cell one callback invocation leaves: a sender-shaped payload
    /// replaces the snapshot wholesale, any other shape leaves the cell
    /// untouched.
    pub closed spec fn store_result(self, event: StatsEvent) -> SenderStatsCell {
        match event {
            StatsEvent::SenderPeer(s) => SenderStatsCell { slot: Some(s) },
            StatsEvent::ReceiverFlow(_) => self,
        }
    }

    /// An empty cell, as a session constructs it.
    pub fn new() -> (r: SenderStatsCell)
        ensures
            r.snapshot() is None,
    {
        SenderStatsCell { slot: None }
    }

    /// What one callback invocation does to the cell.  Only a
    /// sender-shaped payload is stored, and it supersedes the previous
    /// snapshot entirely; the answer says whether it was stored.  The
    /// native container must be freed by the driver afterwards, whatever
    /// the shape.
    pub fn store(&mut self, event: StatsEvent) -> (stored: bool)
        ensures
            *final(self) == old(self).store_result(event),
            event matches StatsEvent::SenderPeer(s)
                ==> final(self).snapshot() == Some(s) && stored,
            event is ReceiverFlow ==> *final(self) == *old(self) && !stored,
    {
        match event {
            StatsEvent::SenderPeer(s) => {
                self.slot = Some(s);
                true
            },
            StatsEvent::ReceiverFlow(_) => false,
        }
    }

    /// A non-blocking read of the cell: the latest snapshot, or absence
    /// if none has arrived yet.
    pub fn raw_stats(&self) -> (r: Option<SenderStats>)
        ensures
            r == self.snapshot(),
    {
        self.slot
    }
}

/// The cell a whole run of callback invocations leaves, first to last.
pub open spec fn sender_cell_after(
    cell: SenderStatsCell,
    events: Seq<StatsEvent>,
) -> SenderStatsCell
    decreases events.len(),
{
    if events.len() == 0 {
        cell
    } else {
        sender_cell_after(cell, events.drop_last()).store_result(events.last())
    }
}

/// The sender-side counterpart: after any run of callback invocations on
/// a cell that started empty, the visible snapshot is either still
/// absent or exactly the whole payload of one single invocation.
pub proof fn lemma_sender_snapshot_is_one_invocation(
    cell: SenderStatsCell,
    events: Seq<StatsEvent>,
)
    requires
        cell.snapshot() is None,
    ensures
        ({
            let seen = sender_cell_after(cell, events).snapshot();
            seen matches Some(s) ==> exists|i: int|
                0 <= i < events.len() && events[i] == StatsEvent::SenderPeer(s)
        }),
    decreases events.len(),
{
    if events.len() > 0 {
        let prefix = events.drop_last();
        lemma_sender_snapshot_is_one_invocation(cell, prefix);
        match sender_cell_after(cell, events).snapshot() {
            Some(s) => {
                match events.last() {
                    StatsEvent::SenderPeer(_) => {
                        assert(events[events.len() - 1] == StatsEvent::SenderPeer(s));
                    },
                    StatsEvent::ReceiverFlow(_) => {
                        let earlier = choose|i: int|
                            0 <= i < prefix.len() && prefix[i] == StatsEvent::SenderPeer(s);
                        assert(events[earlier] == StatsEvent::SenderPeer(s));
                    },
                }
            },
            None => {},
        }
    }
}

} // verus!
