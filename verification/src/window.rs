//! The window state: the mode, the load in flight, the active query's bound
//! and limit, and the key of the last continuation.

use vstd::prelude::*;
use crate::mode::{LoadingDirection, ScrollMode};
use crate::query::{Bound, Order};

verus! {

/// The direction and the anchor timestamp of a continuation. A load whose key
/// equals that of the last one is not started again.
#[derive(Clone, Copy, Debug, PartialEq, Eq, Structural)]
pub struct ContinuationKey {
    /// The direction of the load.
    pub direction: LoadingDirection,
    /// The timestamp of the anchor.
    pub timestamp: i64,
}

/// A load that was started and has not settled: its direction and the window
/// that it asked for.
#[derive(Clone, Copy, Debug, PartialEq, Eq, Structural)]
pub struct PendingLoad {
    /// The direction of the load.
    pub direction: LoadingDirection,
    /// The timestamp of the anchor that the page continues from.
    pub timestamp: i64,
    /// The number of items asked for.
    pub limit: usize,
    /// The offset of the anchor within its parent when the load started, in
    /// millipixels; `None` where it could not be taken.
    pub before: Option<i64>,
}

impl PendingLoad {
    /// The timestamp bound of the window asked for.
    pub open spec fn bound(self) -> Bound {
        Bound::continuing(self.direction, self.timestamp)
    }

    /// The key under which the load was started.
    pub open spec fn key(self) -> ContinuationKey {
        ContinuationKey { direction: self.direction, timestamp: self.timestamp }
    }
}

/// The state of the window.
#[derive(Clone, Copy, Debug, PartialEq, Eq, Structural)]
pub struct WindowState {
    /// The mode.
    pub mode: ScrollMode,
    /// The load in flight, if any.
    pub pending: Option<PendingLoad>,
    /// The timestamp bound of the active query.
    pub bound: Bound,
    /// The limit of the active query.
    pub limit: usize,
    /// The key of the last continuation since the window was last live.
    pub last_continuation_key: Option<ContinuationKey>,
}

impl WindowState {
    /// What holds of the window after every event: it is live exactly while
    /// it has no continuation key, a live window is unbounded, and a load in
    /// flight is the one that the key and the mode record.
    pub open spec fn wf(self) -> bool {
        &&& self.mode is Live <==> self.last_continuation_key is None
        &&& self.mode is Live ==> self.bound is Unbounded && self.pending is None
        &&& match self.pending {
            Some(p) => {
                &&& self.mode == p.direction.paging_mode()
                &&& self.last_continuation_key == Some(p.key())
            },
            None => true,
        }
    }

    /// The direction of the load in flight.
    pub open spec fn loading(self) -> Option<LoadingDirection> {
        match self.pending {
            Some(p) => Some(p.direction),
            None => None,
        }
    }

    /// The order of the active query.
    pub open spec fn order(self) -> Order {
        self.bound.fetch_order()
    }

    /// The oldest item of the stream is in the window: the active query is
    /// descending and returned fewer items than it asked for.
    pub open spec fn reaches_earliest(self, result_count: usize) -> bool {
        self.order() is Descending && result_count < self.limit
    }

    /// The newest item of the stream is in the window: the window is live,
    /// or the active query is ascending and returned fewer items than it
    /// asked for.
    pub open spec fn reaches_latest(self, result_count: usize) -> bool {
        self.mode is Live || (self.order() is Ascending && result_count < self.limit)
    }

    /// The live window of `limit` items.
    pub open spec fn live(limit: usize) -> WindowState {
        WindowState {
            mode: ScrollMode::Live,
            pending: None,
            bound: Bound::Unbounded,
            limit,
            last_continuation_key: None,
        }
    }

    /// Whether a load with this key may start: none is in flight, and the
    /// key differs from that of the last continuation.
    pub open spec fn admits(self, key: ContinuationKey) -> bool {
        self.pending is None && self.last_continuation_key != Some(key)
    }

    /// The window after a load with this key and limit has started, with
    /// the anchor at the offset `before`.
    pub open spec fn begun(
        self,
        key: ContinuationKey,
        limit: usize,
        before: Option<i64>,
    ) -> WindowState {
        WindowState {
            mode: key.direction.paging_mode(),
            pending: Some(
                PendingLoad { direction: key.direction, timestamp: key.timestamp, limit, before },
            ),
            last_continuation_key: Some(key),
            ..self
        }
    }

    /// The window with the query of the load in flight as its active query.
    pub open spec fn installed(self) -> WindowState {
        match self.pending {
            Some(p) => WindowState { bound: p.bound(), limit: p.limit, ..self },
            None => self,
        }
    }

    /// The window with no load in flight.
    pub open spec fn idle(self) -> WindowState {
        WindowState { pending: None, ..self }
    }
}

} // verus!
