//! Continuation anchors: the item of the displayed window at which the next
//! page starts.
//!
//! The displayed window is in display order, oldest item first. Each item
//! carries the frame that the viewport measured for it, or none where its
//! element could not be found.

use vstd::prelude::*;
use crate::mode::LoadingDirection;

verus! {

/// The measured box of one rendered item.
#[derive(Clone, Copy, Debug, PartialEq, Eq, Structural)]
pub struct ItemFrame {
    /// Distance from the top of the content to the item's top edge, in whole
    /// pixels.
    pub top: i32,
    /// The item's height, in whole pixels.
    pub height: i32,
    /// Distance from the top of the item's parent to the item's top edge as
    /// it is drawn, in millipixels; `None` for an item without a parent.
    pub offset: Option<i64>,
}

impl ItemFrame {
    /// The item's top edge, in millipixels.
    pub open spec fn top_edge(self) -> int {
        1000 * self.top
    }

    /// The item's bottom edge, in millipixels.
    pub open spec fn bottom_edge(self) -> int {
        1000 * (self.top + self.height)
    }
}

/// One item of the displayed window: its timestamp and where it was drawn.
#[derive(Clone, Copy, Debug, PartialEq, Eq, Structural)]
pub struct WindowItem {
    /// The item's timestamp, or `None` where it could not be read.
    pub timestamp: Option<i64>,
    /// The item's measured frame, or `None` where its element was not found.
    pub frame: Option<ItemFrame>,
}

impl WindowItem {
    /// The timestamp that a page boundary at this item uses: the item's own,
    /// or zero where it has none.
    pub open spec fn boundary_timestamp(self) -> i64 {
        match self.timestamp {
            Some(t) => t,
            None => 0,
        }
    }

    /// The offset of the item within its parent, where it was measured.
    pub open spec fn drawn_offset(self) -> Option<i64> {
        match self.frame {
            Some(frame) => frame.offset,
            None => None,
        }
    }

    /// The offset of the item within its parent, where it was measured.
    pub fn offset(&self) -> (offset: Option<i64>)
        ensures
            offset == self.drawn_offset(),
    {
        match self.frame {
            Some(frame) => frame.offset,
            None => None,
        }
    }

    /// The timestamp that a page boundary at this item uses.
    pub fn boundary(&self) -> (t: i64)
        ensures
            t == self.boundary_timestamp(),
    {
        match self.timestamp {
            Some(t) => t,
            None => 0,
        }
    }
}

/// Whether the item `i` of `window` was measured.
pub open spec fn measured(window: Seq<WindowItem>, i: int) -> bool {
    window[i].frame is Some
}

/// The position that a backward scan looks for: `step_back` millipixels above
/// the bottom edge of the newest item.
pub open spec fn backward_target(window: Seq<WindowItem>, step_back: int) -> int
    recommends
        window.len() > 0,
        window.last().frame is Some,
{
    window.last().frame->0.bottom_edge() - step_back
}

/// The position that a forward scan looks for: `step_back` millipixels below
/// the top edge of the oldest item.
pub open spec fn forward_target(window: Seq<WindowItem>, step_back: int) -> int
    recommends
        window.len() > 0,
        window[0].frame is Some,
{
    window[0].frame->0.top_edge() + step_back
}

/// Whether the bottom edge of item `i` lies at or above the backward target.
pub open spec fn reaches_back(window: Seq<WindowItem>, step_back: int, i: int) -> bool {
    window[i].frame->0.bottom_edge() <= backward_target(window, step_back)
}

/// Whether the top edge of item `i` lies at or below the forward target.
pub open spec fn reaches_forward(window: Seq<WindowItem>, step_back: int, i: int) -> bool {
    window[i].frame->0.top_edge() >= forward_target(window, step_back)
}

/// Item `i` is the backward anchor of `window`: scanning from the newest item
/// toward the oldest, every item down to `i` was measured, none after `i`
/// reaches the target, and `i` either reaches it or is the oldest item.
pub open spec fn is_backward_anchor(window: Seq<WindowItem>, step_back: int, i: int) -> bool {
    &&& 0 <= i < window.len()
    &&& forall|j: int| i <= j < window.len() ==> measured(window, j)
    &&& forall|j: int| i < j < window.len() ==> !reaches_back(window, step_back, j)
    &&& (reaches_back(window, step_back, i) || i == 0)
}

/// Item `i` is the forward anchor of `window`: scanning from the oldest item
/// toward the newest, every item up to `i` was measured, none before `i`
/// reaches the target, and `i` either reaches it or is the newest item.
pub open spec fn is_forward_anchor(window: Seq<WindowItem>, step_back: int, i: int) -> bool {
    &&& 0 <= i < window.len()
    &&& forall|j: int| 0 <= j <= i ==> measured(window, j)
    &&& forall|j: int| 0 <= j < i ==> !reaches_forward(window, step_back, j)
    &&& (reaches_forward(window, step_back, i) || i == window.len() - 1)
}

/// Item `i` is the continuation anchor of `window` for a load toward
/// `direction`.
pub open spec fn is_anchor(
    direction: LoadingDirection,
    window: Seq<WindowItem>,
    step_back: int,
    i: int,
) -> bool {
    match direction {
        LoadingDirection::Backward => is_backward_anchor(window, step_back, i),
        LoadingDirection::Forward => is_forward_anchor(window, step_back, i),
    }
}

/// The continuation anchor of `window` for a load toward `direction`, where
/// there is one.
pub open spec fn anchor_of(
    direction: LoadingDirection,
    window: Seq<WindowItem>,
    step_back: int,
) -> Option<int> {
    if exists|i: int| is_anchor(direction, window, step_back, i) {
        Some(choose|i: int| is_anchor(direction, window, step_back, i))
    } else {
        None
    }
}

/// A window has at most one continuation anchor in each direction.
pub proof fn anchor_is_unique(
    direction: LoadingDirection,
    window: Seq<WindowItem>,
    step_back: int,
    i: int,
    j: int,
)
    requires
        is_anchor(direction, window, step_back, i),
        is_anchor(direction, window, step_back, j),
    ensures
        i == j,
{
    match direction {
        LoadingDirection::Backward => {
            if i < j {
                assert(!reaches_back(window, step_back, j));
            } else if j < i {
                assert(!reaches_back(window, step_back, i));
            }
        },
        LoadingDirection::Forward => {
            if i < j {
                assert(!reaches_forward(window, step_back, i));
            } else if j < i {
                assert(!reaches_forward(window, step_back, j));
            }
        },
    }
}

/// The anchor is an item of the window, and it is the only index that
/// `is_anchor` accepts.
pub proof fn anchor_is_member(direction: LoadingDirection, window: Seq<WindowItem>, step_back: int)
    ensures
        match anchor_of(direction, window, step_back) {
            Some(i) => {
                &&& 0 <= i < window.len()
                &&& is_anchor(direction, window, step_back, i)
                &&& forall|j: int| is_anchor(direction, window, step_back, j) ==> j == i
            },
            None => forall|j: int| !is_anchor(direction, window, step_back, j),
        },
{
    match anchor_of(direction, window, step_back) {
        Some(i) => {
            assert forall|j: int| is_anchor(direction, window, step_back, j) implies j == i by {
                anchor_is_unique(direction, window, step_back, i, j);
            }
        },
        None => {},
    }
}

/// A window without an item has no anchor.
pub proof fn empty_window_has_no_anchor(direction: LoadingDirection, step_back: int)
    ensures
        anchor_of(direction, Seq::<WindowItem>::empty(), step_back) is None,
{
}

/// A window whose items were all measured has an anchor in either direction.
pub proof fn measured_window_has_anchor(
    direction: LoadingDirection,
    window: Seq<WindowItem>,
    step_back: int,
)
    requires
        window.len() > 0,
        forall|j: int| 0 <= j < window.len() ==> measured(window, j),
    ensures
        anchor_of(direction, window, step_back) is Some,
{
    match direction {
        LoadingDirection::Backward => {
            backward_scan_finds(window, step_back, window.len() as int);
            let i = choose|i: int| is_backward_anchor(window, step_back, i);
            assert(is_anchor(direction, window, step_back, i));
        },
        LoadingDirection::Forward => {
            forward_scan_finds(window, step_back, 0);
            let i = choose|i: int| is_forward_anchor(window, step_back, i);
            assert(is_anchor(direction, window, step_back, i));
        },
    }
}

/// Where no item from `from` on reaches the backward target, an anchor lies
/// before `from`.
proof fn backward_scan_finds(window: Seq<WindowItem>, step_back: int, from: int)
    requires
        0 < from <= window.len(),
        forall|j: int| 0 <= j < window.len() ==> measured(window, j),
        forall|j: int| from <= j < window.len() ==> !reaches_back(window, step_back, j),
    ensures
        exists|i: int| is_backward_anchor(window, step_back, i),
    decreases from,
{
    let i = from - 1;
    if reaches_back(window, step_back, i) || i == 0 {
        assert(is_backward_anchor(window, step_back, i));
    } else {
        backward_scan_finds(window, step_back, i);
    }
}

/// Where no item before `from` reaches the forward target, an anchor lies at
/// or after `from`.
proof fn forward_scan_finds(window: Seq<WindowItem>, step_back: int, from: int)
    requires
        0 <= from < window.len(),
        forall|j: int| 0 <= j < window.len() ==> measured(window, j),
        forall|j: int| 0 <= j < from ==> !reaches_forward(window, step_back, j),
    ensures
        exists|i: int| is_forward_anchor(window, step_back, i),
    decreases window.len() - from,
{
    if reaches_forward(window, step_back, from) || from == window.len() - 1 {
        assert(is_forward_anchor(window, step_back, from));
    } else {
        forward_scan_finds(window, step_back, from + 1);
    }
}

/// An unmeasured item that the backward scan reaches rules every anchor out.
proof fn backward_gap_blocks(window: Seq<WindowItem>, step_back: int, gap: int)
    requires
        0 <= gap < window.len(),
        !measured(window, gap),
        forall|j: int| gap < j < window.len() ==> !reaches_back(window, step_back, j),
    ensures
        forall|i: int| !is_backward_anchor(window, step_back, i),
{
    assert forall|i: int| !is_backward_anchor(window, step_back, i) by {
        if is_backward_anchor(window, step_back, i) {
            if i <= gap {
                assert(measured(window, gap));
            } else {
                assert(!reaches_back(window, step_back, i));
            }
        }
    }
}

/// An unmeasured item that the forward scan reaches rules every anchor out.
proof fn forward_gap_blocks(window: Seq<WindowItem>, step_back: int, gap: int)
    requires
        0 <= gap < window.len(),
        !measured(window, gap),
        forall|j: int| 0 <= j < gap ==> !reaches_forward(window, step_back, j),
    ensures
        forall|i: int| !is_forward_anchor(window, step_back, i),
{
    assert forall|i: int| !is_forward_anchor(window, step_back, i) by {
        if is_forward_anchor(window, step_back, i) {
            if gap <= i {
                assert(measured(window, gap));
            } else {
                assert(!reaches_forward(window, step_back, i));
            }
        }
    }
}

/// The bottom edge of a frame, in millipixels.
fn bottom_edge_of(frame: ItemFrame) -> (edge: i64)
    ensures
        edge == frame.bottom_edge(),
{
    let top: i64 = frame.top as i64;
    let height: i64 = frame.height as i64;
    1000 * (top + height)
}

/// The top edge of a frame, in millipixels.
fn top_edge_of(frame: ItemFrame) -> (edge: i64)
    ensures
        edge == frame.top_edge(),
{
    let top: i64 = frame.top as i64;
    1000 * top
}

/// Finds the item at which a page toward older items starts.
///
/// Starting `step_back` millipixels above the bottom edge of the newest item,
/// the scan runs from the newest item to the oldest and takes the first whose
/// bottom edge is at or above that position; where none is, it takes the
/// oldest item. An item without a frame ends the scan with `None`.
pub fn backward_anchor(window: &Vec<WindowItem>, step_back: i64) -> (found: Option<usize>)
    ensures
        match found {
            Some(i) => is_backward_anchor(window@, step_back as int, i as int),
            None => forall|i: int| !is_backward_anchor(window@, step_back as int, i),
        },
{
    let n: usize = window.len();
    if n == 0 {
        return None;
    }
    let start: ItemFrame = match window[n - 1].frame {
        Some(frame) => frame,
        None => {
            proof {
                backward_gap_blocks(window@, step_back as int, n - 1);
            }
            return None;
        },
    };
    let target: i128 = bottom_edge_of(start) as i128 - step_back as i128;
    let mut i: usize = n;
    while i > 0
        invariant
            0 <= i <= n,
            n == window.len(),
            n > 0,
            window@.last().frame == Some(start),
            target == backward_target(window@, step_back as int),
            forall|j: int| i <= j < n ==> measured(window@, j),
            forall|j: int| i <= j < n ==> !reaches_back(window@, step_back as int, j),
        decreases i,
    {
        i = i - 1;
        match window[i].frame {
            Some(frame) => {
                if bottom_edge_of(frame) as i128 <= target {
                    return Some(i);
                }
            },
            None => {
                proof {
                    backward_gap_blocks(window@, step_back as int, i as int);
                }
                return None;
            },
        }
    }
    Some(0)
}

/// Finds the item at which a page toward newer items starts.
///
/// Starting `step_back` millipixels below the top edge of the oldest item,
/// the scan runs from the oldest item to the newest and takes the first whose
/// top edge is at or below that position; where none is, it takes the newest
/// item. An item without a frame ends the scan with `None`.
pub fn forward_anchor(window: &Vec<WindowItem>, step_back: i64) -> (found: Option<usize>)
    ensures
        match found {
            Some(i) => is_forward_anchor(window@, step_back as int, i as int),
            None => forall|i: int| !is_forward_anchor(window@, step_back as int, i),
        },
{
    let n: usize = window.len();
    if n == 0 {
        return None;
    }
    let start: ItemFrame = match window[0].frame {
        Some(frame) => frame,
        None => {
            proof {
                forward_gap_blocks(window@, step_back as int, 0);
            }
            return None;
        },
    };
    let target: i128 = top_edge_of(start) as i128 + step_back as i128;
    let mut i: usize = 0;
    while i < n
        invariant
            0 <= i <= n,
            n == window.len(),
            n > 0,
            window@[0].frame == Some(start),
            target == forward_target(window@, step_back as int),
            forall|j: int| 0 <= j < i ==> measured(window@, j),
            forall|j: int| 0 <= j < i ==> !reaches_forward(window@, step_back as int, j),
        decreases n - i,
    {
        match window[i].frame {
            Some(frame) => {
                if top_edge_of(frame) as i128 >= target {
                    return Some(i);
                }
            },
            None => {
                proof {
                    forward_gap_blocks(window@, step_back as int, i as int);
                }
                return None;
            },
        }
        i = i + 1;
    }
    Some(n - 1)
}

/// Finds the continuation anchor of the displayed window for a load toward
/// `direction`: the index of an item of `window`, or `None` where the window
/// is empty or the scan met an item without a frame.
pub fn continuation_anchor(
    direction: LoadingDirection,
    window: &Vec<WindowItem>,
    step_back: i64,
) -> (found: Option<usize>)
    ensures
        match found {
            Some(i) => i < window.len() && anchor_of(direction, window@, step_back as int) == Some(
                i as int,
            ),
            None => anchor_of(direction, window@, step_back as int) is None,
        },
{
    let found = match direction {
        LoadingDirection::Backward => backward_anchor(window, step_back),
        LoadingDirection::Forward => forward_anchor(window, step_back),
    };
    proof {
        anchor_is_member(direction, window@, step_back as int);
        if let Some(i) = found {
            assert(is_anchor(direction, window@, step_back as int, i as int));
        }
    }
    found
}

} // verus!
