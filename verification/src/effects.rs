//! What the controller hands back for the surrounding program to carry out:
//! queries to issue, listeners to move, scroll positions to set.

use vstd::prelude::*;
use crate::geometry::ScrollCommand;
use crate::mode::LoadingDirection;
use crate::query::{WindowQuery, WindowQueryView};

verus! {

/// A scroll container offered for binding: a number that identifies it, the
/// same for the same container, and its scroll position.
#[derive(Clone, Copy, Debug, PartialEq, Eq, Structural)]
pub struct Container {
    /// The container's identity.
    pub id: u64,
    /// How far the container is scrolled, in whole pixels.
    pub scroll_top: i32,
}

/// The listeners to move when the binding changes: first remove the scroll,
/// wheel and touch listeners from `detach`, then add them to `attach`.
#[derive(Clone, Copy, Debug, PartialEq, Eq, Structural)]
pub struct Rebinding {
    /// The container that loses its listeners.
    pub detach: Option<u64>,
    /// The container that gets listeners.
    pub attach: Option<u64>,
}

/// What entering live mode asks for: the query to issue, and the room to
/// report as the active window.
#[derive(Clone, Debug, PartialEq, Eq)]
pub struct LiveEntry {
    /// The query to issue against the live store.
    pub query: WindowQuery,
    /// The room whose window is now live and visible.
    pub active_window: String,
}

/// What a live entry is, with its texts as sequences of characters.
pub struct LiveEntryView {
    pub query: WindowQueryView,
    pub active_window: Seq<char>,
}

impl View for LiveEntry {
    type V = LiveEntryView;

    open spec fn view(&self) -> LiveEntryView {
        LiveEntryView { query: self.query@, active_window: self.active_window@ }
    }
}

/// A page load that has started. The offset of the anchor's element is taken
/// before the query is issued and again when it has settled.
#[derive(Clone, Debug, PartialEq, Eq)]
pub struct LoadPlan {
    /// The direction of the load.
    pub direction: LoadingDirection,
    /// The index of the anchor in the displayed window.
    pub anchor: usize,
    /// The query to issue against the live store.
    pub query: WindowQuery,
    /// Whether to report that no window is active any more: the load leaves
    /// live mode.
    pub clear_active_window: bool,
}

/// What a load plan is, with the room as a sequence of characters.
pub struct LoadPlanView {
    pub direction: LoadingDirection,
    pub anchor: int,
    pub query: WindowQueryView,
    pub clear_active_window: bool,
}

impl View for LoadPlan {
    type V = LoadPlanView;

    open spec fn view(&self) -> LoadPlanView {
        LoadPlanView {
            direction: self.direction,
            anchor: self.anchor as int,
            query: self.query@,
            clear_active_window: self.clear_active_window,
        }
    }
}

/// How a load ended.
#[derive(Clone, Debug, PartialEq, Eq)]
pub enum Settlement {
    /// No load was in flight: nothing is to be done.
    Stale,
    /// The new window reaches the newest item: the controller went live.
    WentLive(LiveEntry),
    /// The new window is in place, and the viewport moves as given so that
    /// the anchor stays where it was.
    Anchored(Option<ScrollCommand>),
}

/// What a settlement is, with its texts as sequences of characters.
pub enum SettlementView {
    Stale,
    WentLive(LiveEntryView),
    Anchored(Option<ScrollCommand>),
}

impl View for Settlement {
    type V = SettlementView;

    open spec fn view(&self) -> SettlementView {
        match self {
            Settlement::Stale => SettlementView::Stale,
            Settlement::WentLive(entry) => SettlementView::WentLive(entry@),
            Settlement::Anchored(command) => SettlementView::Anchored(*command),
        }
    }
}

} // verus!
