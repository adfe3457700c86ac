//! The controller as a state machine: what it remembers, and what each event
//! makes of it.
//!
//! Every function here is a specification. The executable controller is
//! `ChatScrollManager`; each of its methods says which of these transitions
//! it takes.

use vstd::prelude::*;
use crate::anchor::{anchor_of, WindowItem};
use crate::effects::{Container, LiveEntryView, LoadPlanView, Rebinding, SettlementView};
use crate::geometry::{
    anchor_shift,
    scroll_command_for,
    ScrollCommand,
    ScrollConfig,
    ScrollMetrics,
    Viewport,
    AUTO_SCROLL_SLACK,
};
use crate::mode::{LoadingDirection, ScrollMode};
use crate::query::{Bound, WindowQueryView};
use crate::window::{ContinuationKey, WindowState};

verus! {

/// What the controller remembers.
pub struct ManagerState {
    /// The constants that size windows and thresholds.
    pub config: ScrollConfig,
    /// The room whose messages are shown.
    pub room_id: Seq<char>,
    /// The window state.
    pub window: WindowState,
    /// The metrics of the last measurement.
    pub metrics: ScrollMetrics,
    /// The scroll position at the last scroll event, in whole pixels.
    pub last_scroll_top: i32,
    /// Whether a wheel or touch event came since the last scroll event.
    pub user_scrolling: bool,
    /// Whether a layout pass has been seen.
    pub initialized: bool,
    /// The bound container, if any.
    pub container: Option<u64>,
}

/// An event that the controller reacts to.
pub enum Event {
    /// Live mode is entered, with or without a jump to the bottom.
    GoLive { viewport: Option<Viewport> },
    /// A load toward `direction` is asked for.
    LoadMore { direction: LoadingDirection, window: Seq<WindowItem>, viewport: Option<Viewport> },
    /// The load in flight settled with `result_count` items.
    LoadSettled { result_count: usize, viewport: Option<Viewport> },
    /// The load in flight failed.
    LoadFailed,
    /// The viewport scrolled.
    Scroll { viewport: Option<Viewport>, result_count: usize },
    /// A wheel or touch event came.
    UserScroll,
    /// The viewport was measured.
    Measure { viewport: Option<Viewport>, result_count: usize },
    /// A container, or none, was offered for binding.
    Bind { container: Option<Container> },
    /// A layout pass ended.
    Layout,
}

impl ManagerState {
    /// The controller of a room just selected: live, asking for
    /// `DEFAULT_LIMIT` items, bound to no container.
    pub open spec fn initial(room_id: Seq<char>) -> ManagerState {
        ManagerState {
            config: ScrollConfig::standard(),
            room_id,
            window: WindowState::live(ScrollConfig::standard().limit_for(None)),
            metrics: ScrollMetrics {
                top_gap: 0,
                bottom_gap: 0,
                min_buffer: 0,
                step_back: 0,
                result_count: 0,
            },
            last_scroll_top: 0,
            user_scrolling: false,
            initialized: false,
            container: None,
        }
    }

    /// What holds of the controller after every event.
    pub open spec fn wf(self) -> bool {
        self.window.wf()
    }

    /// The viewport as the controller takes it: a controller that is bound
    /// to no container reads no geometry.
    pub open spec fn sees(self, viewport: Option<Viewport>) -> Option<Viewport> {
        if self.container is Some {
            viewport
        } else {
            None
        }
    }

    /// The number of active listener sets: one while a container is bound.
    pub open spec fn listener_sets(self) -> nat {
        if self.container is Some {
            1
        } else {
            0
        }
    }

    /// The active query.
    pub open spec fn query(self) -> WindowQueryView {
        WindowQueryView { scope: self.room_id, bound: self.window.bound, limit: self.window.limit }
    }

    /// The direction of the load in flight.
    pub open spec fn loading(self) -> Option<LoadingDirection> {
        self.window.loading()
    }

    /// The live viewport follows new items: the mode is live and the bottom
    /// gap of the last measurement is under the slack.
    pub open spec fn should_auto_scroll(self) -> bool {
        self.window.mode is Live && self.metrics.bottom_gap < AUTO_SCROLL_SLACK
    }

    /// The fetched items in display order, oldest first: a descending result
    /// is reversed.
    pub open spec fn shown<T>(self, raw: Seq<T>) -> Seq<T> {
        if self.window.order() is Descending {
            raw.reverse()
        } else {
            raw
        }
    }

    /// The command that moves the viewport to `target` millipixels; none for
    /// a controller without a viewport.
    pub open spec fn command_to(self, target: int, viewport: Option<Viewport>) -> Option<
        ScrollCommand,
    > {
        match self.sees(viewport) {
            Some(v) => scroll_command_for(target, v.scroll_top),
            None => None,
        }
    }

    /// The command that moves the viewport to the bottom of its content.
    pub open spec fn bottom_command(self, viewport: Option<Viewport>) -> Option<ScrollCommand> {
        match self.sees(viewport) {
            Some(v) => scroll_command_for(1000 * v.scroll_height, v.scroll_top),
            None => None,
        }
    }

    /// The controller after it went live: no continuation key, no load in
    /// flight, and an unbounded descending window sized to the viewport.
    pub open spec fn gone_live(self, viewport: Option<Viewport>) -> ManagerState {
        ManagerState {
            window: WindowState::live(self.config.limit_for(self.sees(viewport))),
            ..self
        }
    }

    /// What going live asks for: the active query, and this room as the
    /// active window.
    pub open spec fn live_entry(self) -> LiveEntryView {
        LiveEntryView { query: self.query(), active_window: self.room_id }
    }

    /// Whether `container` is the one that is bound already, or none is
    /// offered and none is bound.
    pub open spec fn holds(self, container: Option<Container>) -> bool {
        match (self.container, container) {
            (Some(bound), Some(offered)) => bound == offered.id,
            (None, None) => true,
            _ => false,
        }
    }

    /// The listeners to move when `container` is offered for binding.
    pub open spec fn rebinding(self, container: Option<Container>) -> Rebinding {
        if self.holds(container) {
            Rebinding { detach: None, attach: None }
        } else {
            Rebinding {
                detach: self.container,
                attach: match container {
                    Some(offered) => Some(offered.id),
                    None => None,
                },
            }
        }
    }

    /// The controller after `container` was offered for binding.
    pub open spec fn rebound(self, container: Option<Container>) -> ManagerState {
        if self.holds(container) {
            self
        } else {
            match container {
                Some(offered) => ManagerState {
                    container: Some(offered.id),
                    last_scroll_top: offered.scroll_top,
                    ..self
                },
                None => ManagerState { container: None, ..self },
            }
        }
    }

    /// The controller after a layout pass.
    pub open spec fn laid_out(self) -> ManagerState {
        ManagerState { initialized: true, ..self }
    }

    /// The command that follows a layout pass: to the bottom where the
    /// viewport follows new items.
    pub open spec fn layout_command(self, viewport: Option<Viewport>) -> Option<ScrollCommand> {
        if self.should_auto_scroll() {
            self.bottom_command(viewport)
        } else {
            None
        }
    }

    /// The controller after the viewport was measured while it showed
    /// `result_count` items.
    pub open spec fn measured(
        self,
        viewport: Option<Viewport>,
        result_count: usize,
    ) -> ManagerState {
        match self.sees(viewport) {
            Some(v) => ManagerState { metrics: self.config.metrics_for(v, result_count), ..self },
            None => self,
        }
    }

    /// The continuation anchor for a load toward `direction`: none for a
    /// controller without a viewport.
    pub open spec fn anchor_for(
        self,
        direction: LoadingDirection,
        window: Seq<WindowItem>,
        viewport: Option<Viewport>,
    ) -> Option<int> {
        match self.sees(viewport) {
            Some(v) => anchor_of(direction, window, self.config.step_back_for(Some(v))),
            None => None,
        }
    }

    /// The load that starts when one toward `direction` is asked for: none
    /// while a load is in flight, where the window has no anchor, or where
    /// the anchor gives the key of the last continuation again.
    pub open spec fn plan_for(
        self,
        direction: LoadingDirection,
        window: Seq<WindowItem>,
        viewport: Option<Viewport>,
    ) -> Option<LoadPlanView> {
        match self.anchor_for(direction, window, viewport) {
            Some(i) => {
                let timestamp = window[i].boundary_timestamp();
                if self.window.admits(ContinuationKey { direction, timestamp }) {
                    Some(
                        LoadPlanView {
                            direction,
                            anchor: i,
                            query: WindowQueryView {
                                scope: self.room_id,
                                bound: Bound::continuing(direction, timestamp),
                                limit: self.config.limit_for(self.sees(viewport)),
                            },
                            clear_active_window: self.window.mode is Live,
                        },
                    )
                } else {
                    None
                }
            },
            None => None,
        }
    }

    /// The controller after a load toward `direction` was asked for.
    pub open spec fn begun(
        self,
        direction: LoadingDirection,
        window: Seq<WindowItem>,
        viewport: Option<Viewport>,
    ) -> ManagerState {
        match self.plan_for(direction, window, viewport) {
            Some(plan) => ManagerState {
                window: self.window.begun(
                    ContinuationKey {
                        direction,
                        timestamp: window[plan.anchor].boundary_timestamp(),
                    },
                    plan.query.limit,
                    window[plan.anchor].drawn_offset(),
                ),
                ..self
            },
            None => self,
        }
    }

    /// The controller with the query of the load in flight as its active
    /// query.
    pub open spec fn installed(self) -> ManagerState {
        ManagerState { window: self.window.installed(), ..self }
    }

    /// The controller after the load in flight settled with `result_count`
    /// items: live where the new window reaches the newest item, and else
    /// with the new window in place and nothing in flight.
    pub open spec fn settled(
        self,
        result_count: usize,
        viewport: Option<Viewport>,
    ) -> ManagerState {
        if self.window.pending is None {
            self
        } else if self.installed().window.reaches_latest(result_count) {
            self.installed().gone_live(viewport)
        } else {
            ManagerState { window: self.window.installed().idle(), ..self }
        }
    }

    /// How the load in flight ends when it settles with `result_count`
    /// items and the anchor's offset is `after`: live, or with the viewport
    /// moved by as much as the anchor moved since the load started.
    pub open spec fn settlement_for(
        self,
        result_count: usize,
        after: Option<i64>,
        viewport: Option<Viewport>,
    ) -> SettlementView {
        if self.window.pending is None {
            SettlementView::Stale
        } else if self.installed().window.reaches_latest(result_count) {
            SettlementView::WentLive(self.installed().gone_live(viewport).live_entry())
        } else {
            SettlementView::Anchored(
                match self.sees(viewport) {
                    Some(v) => scroll_command_for(
                        1000 * v.scroll_top + anchor_shift(self.window.pending->0.before, after),
                        v.scroll_top,
                    ),
                    None => None,
                },
            )
        }
    }

    /// The controller after the load in flight failed: the window stays as
    /// it was, and nothing is in flight.
    pub open spec fn failed(self) -> ManagerState {
        ManagerState { window: self.window.idle(), ..self }
    }

    /// The controller after a wheel or touch event.
    pub open spec fn touched(self) -> ManagerState {
        ManagerState { user_scrolling: true, ..self }
    }

    /// The load that a scroll event asks for. Only a scroll that follows a
    /// wheel or touch event asks for one, and only while the window shows an
    /// item and no load is in flight: toward older items when the viewport
    /// moved up and its top gap is under the threshold, unless the window
    /// reaches the oldest item; toward newer items when it moved down and its
    /// bottom gap is under the threshold, unless the window reaches the
    /// newest item.
    pub open spec fn scroll_request(
        self,
        viewport: Option<Viewport>,
        result_count: usize,
    ) -> Option<LoadingDirection> {
        match self.sees(viewport) {
            Some(v) => {
                if !self.user_scrolling || result_count == 0 {
                    None
                } else if v.scroll_top < self.last_scroll_top && v.top_gap()
                    < self.config.min_buffer_for(Some(v)) && !self.window.reaches_earliest(
                    result_count,
                ) && self.window.pending is None {
                    Some(LoadingDirection::Backward)
                } else if v.scroll_top > self.last_scroll_top && v.bottom_gap()
                    < self.config.min_buffer_for(Some(v)) && !self.window.reaches_latest(
                    result_count,
                ) && self.window.pending is None {
                    Some(LoadingDirection::Forward)
                } else {
                    None
                }
            },
            None => None,
        }
    }

    /// The controller after a scroll event: the metrics are taken anew, the
    /// scroll position is remembered, and the wheel or touch event is used
    /// up. A controller without a viewport stays as it is.
    pub open spec fn scrolled(
        self,
        viewport: Option<Viewport>,
        result_count: usize,
    ) -> ManagerState {
        match self.sees(viewport) {
            Some(v) => ManagerState {
                metrics: self.config.metrics_for(v, result_count),
                last_scroll_top: v.scroll_top,
                user_scrolling: false,
                ..self
            },
            None => self,
        }
    }

    /// The controller after the `events`, one after the other.
    pub open spec fn after_all(self, events: Seq<Event>) -> ManagerState
        decreases events.len(),
    {
        if events.len() == 0 {
            self
        } else {
            self.after_all(events.drop_last()).after(events.last())
        }
    }

    /// The controller after `event`.
    pub open spec fn after(self, event: Event) -> ManagerState {
        match event {
            Event::GoLive { viewport } => self.gone_live(viewport),
            Event::LoadMore { direction, window, viewport } => self.begun(
                direction,
                window,
                viewport,
            ),
            Event::LoadSettled { result_count, viewport } => self.settled(result_count, viewport),
            Event::LoadFailed => self.failed(),
            Event::Scroll { viewport, result_count } => self.scrolled(viewport, result_count),
            Event::UserScroll => self.touched(),
            Event::Measure { viewport, result_count } => self.measured(viewport, result_count),
            Event::Bind { container } => self.rebound(container),
            Event::Layout => self.laid_out(),
        }
    }
}

} // verus!
