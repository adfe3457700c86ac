//! The scroll manager: the executable controller of one room's window.
//!
//! The manager never touches a viewport or a store. Its methods take what
//! was read from them and return what is to be done: a query to issue,
//! listeners to move, a scroll position to set.

use vstd::prelude::*;
use crate::anchor::{continuation_anchor, WindowItem};
use crate::effects::{Container, LiveEntry, LoadPlan, Rebinding, Settlement};
use crate::geometry::{
    scroll_command,
    shift_of,
    ScrollCommand,
    ScrollConfig,
    ScrollMetrics,
    Viewport,
    AUTO_SCROLL_SLACK,
};
use crate::mode::{LoadingDirection, ScrollMode};
use crate::query::{Bound, Order, WindowQuery};
use crate::state::ManagerState;
use crate::window::{ContinuationKey, PendingLoad, WindowState};

verus! {

/// The controller of one room's window.
pub struct ChatScrollManager {
    config: ScrollConfig,
    room_id: String,
    window: WindowState,
    metrics: ScrollMetrics,
    last_scroll_top: i32,
    user_scrolling: bool,
    initialized: bool,
    container: Option<u64>,
}

impl View for ChatScrollManager {
    type V = ManagerState;

    closed spec fn view(&self) -> ManagerState {
        ManagerState {
            config: self.config,
            room_id: self.room_id@,
            window: self.window,
            metrics: self.metrics,
            last_scroll_top: self.last_scroll_top,
            user_scrolling: self.user_scrolling,
            initialized: self.initialized,
            container: self.container,
        }
    }
}

impl ChatScrollManager {
    /// Creates the controller of a room: live, with the default limit and no
    /// container. The entry returned with it holds the first query and names
    /// the room as the active window.
    pub fn new(room_id: String) -> (started: (ChatScrollManager, LiveEntry))
        ensures
            started.0@ == ManagerState::initial(room_id@),
            started.0@.wf(),
            started.1@ == ManagerState::initial(room_id@).live_entry(),
    {
        let config = ScrollConfig::new();
        let limit = config.compute_limit(None);
        let manager = ChatScrollManager {
            config,
            room_id,
            window: WindowState {
                mode: ScrollMode::Live,
                pending: None,
                bound: Bound::Unbounded,
                limit,
                last_continuation_key: None,
            },
            metrics: ScrollMetrics {
                top_gap: 0,
                bottom_gap: 0,
                min_buffer: 0,
                step_back: 0,
                result_count: 0,
            },
            last_scroll_top: 0,
            user_scrolling: false,
            initialized: false,
            container: None,
        };
        let entry = manager.live_entry();
        (manager, entry)
    }

    /// The mode.
    pub fn mode(&self) -> (mode: ScrollMode)
        ensures
            mode == self@.window.mode,
    {
        self.window.mode
    }

    /// The direction of the load in flight, or `None` while nothing loads.
    pub fn loading(&self) -> (loading: Option<LoadingDirection>)
        ensures
            loading == self@.loading(),
    {
        match self.window.pending {
            Some(p) => Some(p.direction),
            None => None,
        }
    }

    /// The metrics of the last measurement.
    pub fn metrics(&self) -> (metrics: ScrollMetrics)
        ensures
            metrics == self@.metrics,
    {
        self.metrics
    }

    /// The active query.
    pub fn query(&self) -> (query: WindowQuery)
        ensures
            query@ == self@.query(),
    {
        WindowQuery {
            scope: self.room_id.clone(),
            bound: self.window.bound,
            limit: self.window.limit,
        }
    }

    /// The key of the last continuation since the window was last live.
    pub fn last_continuation_key(&self) -> (key: Option<ContinuationKey>)
        ensures
            key == self@.window.last_continuation_key,
    {
        self.window.last_continuation_key
    }

    /// The bound container, if any.
    pub fn container(&self) -> (container: Option<u64>)
        ensures
            container == self@.container,
    {
        self.container
    }

    /// The number of active listener sets: one while a container is bound,
    /// none otherwise.
    pub fn listener_sets(&self) -> (count: usize)
        ensures
            count == self@.listener_sets(),
            count <= 1,
    {
        match self.container {
            Some(_) => 1,
            None => 0,
        }
    }

    /// Whether a layout pass has been seen.
    pub fn initialized(&self) -> (initialized: bool)
        ensures
            initialized == self@.initialized,
    {
        self.initialized
    }

    /// The viewport as the controller takes it.
    fn seen(&self, viewport: Option<Viewport>) -> (seen: Option<Viewport>)
        ensures
            seen == self@.sees(viewport),
    {
        match self.container {
            Some(_) => viewport,
            None => None,
        }
    }

    /// What going live asks for.
    fn live_entry(&self) -> (entry: LiveEntry)
        ensures
            entry@ == self@.live_entry(),
    {
        LiveEntry { query: self.query(), active_window: self.room_id.clone() }
    }

    /// Enters live mode. The continuation key and the load in flight are
    /// dropped, and the active query becomes the unbounded descending one,
    /// sized to the viewport. The entry returned holds that query, to be
    /// issued, and names the room as the active window. Nothing scrolls.
    pub fn set_live_mode(&mut self, viewport: Option<Viewport>) -> (entry: LiveEntry)
        ensures
            final(self)@ == old(self)@.gone_live(viewport),
            entry@ == old(self)@.gone_live(viewport).live_entry(),
    {
        let limit = self.compute_limit(viewport);
        self.window = WindowState {
            mode: ScrollMode::Live,
            pending: None,
            bound: Bound::Unbounded,
            limit,
            last_continuation_key: None,
        };
        self.live_entry()
    }

    /// Enters live mode and scrolls to the bottom of the content, whatever
    /// the mode was.
    pub fn jump_to_live(&mut self, viewport: Option<Viewport>) -> (jump: (
        LiveEntry,
        Option<ScrollCommand>,
    ))
        ensures
            final(self)@ == old(self)@.gone_live(viewport),
            jump.0@ == old(self)@.gone_live(viewport).live_entry(),
            jump.1 == old(self)@.bottom_command(viewport),
    {
        let entry = self.set_live_mode(viewport);
        let command = self.scroll_to_bottom(viewport);
        (entry, command)
    }

    /// Whether the window reaches the oldest item of the stream: the active
    /// query is descending and its latest result, of `result_count` items,
    /// is shorter than its limit.
    pub fn at_earliest(&self, result_count: usize) -> (reached: bool)
        ensures
            reached == self@.window.reaches_earliest(result_count),
            reached == (self@.query().order() is Descending && result_count < self@.query().limit),
    {
        match self.window.bound.order() {
            Order::Descending => result_count < self.window.limit,
            Order::Ascending => false,
        }
    }

    /// Whether the window reaches the newest item of the stream: the mode is
    /// live, or the active query is ascending and its latest result, of
    /// `result_count` items, is shorter than its limit.
    pub fn at_latest(&self, result_count: usize) -> (reached: bool)
        ensures
            reached == self@.window.reaches_latest(result_count),
            reached == (self@.window.mode is Live || (self@.query().order() is Ascending
                && result_count < self@.query().limit)),
    {
        match self.window.mode {
            ScrollMode::Live => true,
            _ => match self.window.bound.order() {
                Order::Ascending => result_count < self.window.limit,
                Order::Descending => false,
            },
        }
    }

    /// Whether a layout pass scrolls to the bottom: the mode is live and the
    /// bottom gap is under fifty pixels.
    pub fn should_auto_scroll(&self) -> (follow: bool)
        ensures
            follow == self@.should_auto_scroll(),
    {
        match self.window.mode {
            ScrollMode::Live => self.metrics.bottom_gap < AUTO_SCROLL_SLACK,
            _ => false,
        }
    }

    /// The fetched items in display order, oldest first: the result of a
    /// descending query is reversed, that of an ascending query is kept.
    pub fn items<T>(&self, raw: Vec<T>) -> (shown: Vec<T>)
        ensures
            shown@ == self@.shown(raw@),
    {
        match self.window.bound.order() {
            Order::Ascending => raw,
            Order::Descending => {
                let ghost fetched = raw@;
                let mut rest = raw;
                let mut shown: Vec<T> = Vec::new();
                while rest.len() > 0
                    invariant
                        rest@ == fetched.subrange(0, rest.len() as int),
                        rest.len() <= fetched.len(),
                        shown@ == fetched.reverse().subrange(0, fetched.len() - rest.len()),
                    decreases rest.len(),
                {
                    let ghost n = rest.len();
                    match rest.pop() {
                        Some(item) => {
                            shown.push(item);
                            proof {
                                assert(item == fetched[n - 1]);
                                assert(rest@ =~= fetched.subrange(0, n - 1));
                                assert(shown@ =~= fetched.reverse().subrange(
                                    0,
                                    fetched.len() - (n - 1),
                                ));
                            }
                        },
                        None => {},
                    }
                }
                proof {
                    assert(shown@ =~= fetched.reverse());
                }
                shown
            },
        }
    }

    /// Binds the controller to `container`, or to none. Offering the bound
    /// container again changes nothing. Otherwise the listeners leave the
    /// old container before they are added to the new one, whose scroll
    /// position is remembered.
    pub fn bind_container(&mut self, container: Option<Container>) -> (rebinding: Rebinding)
        ensures
            final(self)@ == old(self)@.rebound(container),
            rebinding == old(self)@.rebinding(container),
    {
        match (self.container, container) {
            (Some(bound), Some(offered)) => {
                if bound == offered.id {
                    Rebinding { detach: None, attach: None }
                } else {
                    self.container = Some(offered.id);
                    self.last_scroll_top = offered.scroll_top;
                    Rebinding { detach: Some(bound), attach: Some(offered.id) }
                }
            },
            (None, Some(offered)) => {
                self.container = Some(offered.id);
                self.last_scroll_top = offered.scroll_top;
                Rebinding { detach: None, attach: Some(offered.id) }
            },
            (Some(bound), None) => {
                self.container = None;
                Rebinding { detach: Some(bound), attach: None }
            },
            (None, None) => Rebinding { detach: None, attach: None },
        }
    }

    /// Whether a render pass calls for `after_layout`: the number of items
    /// displayed differs from that of the pass before. The first pass, which
    /// has none before it, does not.
    pub fn layout_due(previous: Option<usize>, count: usize) -> (due: bool)
        ensures
            due == (previous is Some && previous != Some(count)),
    {
        match previous {
            Some(before) => before != count,
            None => false,
        }
    }

    /// Takes note of a layout pass, and scrolls to the bottom where the
    /// viewport follows new items.
    pub fn after_layout(&mut self, viewport: Option<Viewport>) -> (command: Option<ScrollCommand>)
        ensures
            final(self)@ == old(self)@.laid_out(),
            command == old(self)@.layout_command(viewport),
    {
        self.initialized = true;
        if self.should_auto_scroll() {
            self.scroll_to_bottom(viewport)
        } else {
            None
        }
    }

    /// Unbinds the controller: the listeners leave the bound container, and
    /// from then on the controller reads no geometry and moves no viewport.
    pub fn destroy(&mut self) -> (rebinding: Rebinding)
        ensures
            final(self)@ == old(self)@.rebound(None),
            rebinding == old(self)@.rebinding(None),
            final(self)@.container is None,
    {
        self.bind_container(None)
    }

    /// The number of items to ask for: as many rows of the least height as
    /// cover the configured number of viewport heights, padding excluded;
    /// the default limit without a viewport.
    pub fn compute_limit(&self, viewport: Option<Viewport>) -> (limit: usize)
        ensures
            limit == self@.config.limit_for(self@.sees(viewport)),
    {
        self.config.compute_limit(self.seen(viewport))
    }

    /// The buffer threshold and the continuation step, in millipixels.
    pub fn get_thresholds(&self, viewport: Option<Viewport>) -> (thresholds: (i64, i64))
        ensures
            thresholds.0 == self@.config.min_buffer_for(self@.sees(viewport)),
            thresholds.1 == self@.config.step_back_for(self@.sees(viewport)),
    {
        self.config.get_thresholds(self.seen(viewport))
    }

    /// Takes the metrics anew from the viewport, which shows `result_count`
    /// items. Without a viewport the metrics stay as they are.
    pub fn update_metrics(&mut self, viewport: Option<Viewport>, result_count: usize)
        ensures
            final(self)@ == old(self)@.measured(viewport, result_count),
    {
        match self.seen(viewport) {
            Some(v) => {
                self.metrics = self.config.measure(v, result_count);
            },
            None => {},
        }
    }

    /// Finds the item of the displayed window at which a page toward
    /// `direction` starts: an index into `window`, or `None` without a
    /// viewport, for an empty window, or where the scan met an item that was
    /// not measured.
    pub fn get_continuation_anchor(
        &self,
        direction: LoadingDirection,
        window: &Vec<WindowItem>,
        viewport: Option<Viewport>,
    ) -> (found: Option<usize>)
        ensures
            match found {
                Some(i) => i < window.len() && self@.anchor_for(direction, window@, viewport)
                    == Some(i as int),
                None => self@.anchor_for(direction, window@, viewport) is None,
            },
    {
        match self.seen(viewport) {
            Some(v) => {
                let (_, step_back) = self.config.get_thresholds(Some(v));
                continuation_anchor(direction, window, step_back)
            },
            None => None,
        }
    }

    /// Starts a page load toward `direction`, from the displayed window.
    ///
    /// Nothing happens, and `None` is returned, while a load is in flight,
    /// where the window has no continuation anchor, or where the anchor gives
    /// the key of the last continuation again. Otherwise the load is in
    /// flight, the mode is that of the direction, and the key and the offset
    /// of the anchor within its parent are remembered.
    /// The plan returned names the anchor and holds the query to issue:
    /// bounded by the anchor's timestamp, at most for a backward and at least
    /// for a forward load, and sized to the viewport.
    pub fn load_more(
        &mut self,
        direction: LoadingDirection,
        window: &Vec<WindowItem>,
        viewport: Option<Viewport>,
    ) -> (plan: Option<LoadPlan>)
        ensures
            final(self)@ == old(self)@.begun(direction, window@, viewport),
            match plan {
                Some(p) => p.anchor < window.len() && old(self)@.plan_for(
                    direction,
                    window@,
                    viewport,
                ) == Some(p@),
                None => old(self)@.plan_for(direction, window@, viewport) is None,
            },
    {
        let anchor = match self.get_continuation_anchor(direction, window, viewport) {
            Some(i) => i,
            None => {
                return None;
            },
        };
        let timestamp = window[anchor].boundary();
        let before = window[anchor].offset();
        let key = ContinuationKey { direction, timestamp };
        if self.window.pending.is_some() {
            return None;
        }
        match self.window.last_continuation_key {
            Some(last) => {
                if last == key {
                    return None;
                }
            },
            None => {},
        }
        let limit = self.compute_limit(viewport);
        let leaves_live = match self.window.mode {
            ScrollMode::Live => true,
            _ => false,
        };
        self.window = WindowState {
            mode: direction.mode(),
            pending: Some(PendingLoad { direction, timestamp, limit, before }),
            bound: self.window.bound,
            limit: self.window.limit,
            last_continuation_key: Some(key),
        };
        Some(
            LoadPlan {
                direction,
                anchor,
                query: WindowQuery {
                    scope: self.room_id.clone(),
                    bound: Bound::continue_from(direction, timestamp),
                    limit,
                },
                clear_active_window: leaves_live,
            },
        )
    }

    /// Settles the load in flight: its query returned `result_count` items,
    /// and the offset of the anchor within its parent is now `after`, in
    /// millipixels, `None` where the anchor cannot be found any more.
    ///
    /// The query becomes the active one. Where the new window reaches the
    /// newest item the controller goes live, as `set_live_mode` does.
    /// Otherwise the viewport moves by what the anchor moved since the load
    /// started, and nothing is in flight any more. An anchor that cannot be
    /// found has not moved. Without a load in flight nothing happens.
    pub fn complete_load(
        &mut self,
        result_count: usize,
        after: Option<i64>,
        viewport: Option<Viewport>,
    ) -> (settlement: Settlement)
        ensures
            final(self)@ == old(self)@.settled(result_count, viewport),
            settlement@ == old(self)@.settlement_for(result_count, after, viewport),
    {
        let pending = match self.window.pending {
            Some(p) => p,
            None => {
                return Settlement::Stale;
            },
        };
        self.window = WindowState {
            mode: self.window.mode,
            pending: self.window.pending,
            bound: Bound::continue_from(pending.direction, pending.timestamp),
            limit: pending.limit,
            last_continuation_key: self.window.last_continuation_key,
        };
        if self.at_latest(result_count) {
            return Settlement::WentLive(self.set_live_mode(viewport));
        }
        let command = match self.seen(viewport) {
            Some(v) => scroll_command(
                1000 * (v.scroll_top as i128) + shift_of(pending.before, after),
                v.scroll_top,
            ),
            None => None,
        };
        self.window = WindowState {
            mode: self.window.mode,
            pending: None,
            bound: self.window.bound,
            limit: self.window.limit,
            last_continuation_key: self.window.last_continuation_key,
        };
        Settlement::Anchored(command)
    }

    /// Gives up the load in flight after the store refused its query: the
    /// window stays as it was and nothing is in flight any more. Returns
    /// whether a load was in flight.
    pub fn fail_load(&mut self) -> (was_loading: bool)
        ensures
            final(self)@ == old(self)@.failed(),
            was_loading == old(self)@.loading() is Some,
    {
        let was_loading = self.window.pending.is_some();
        self.window = WindowState {
            mode: self.window.mode,
            pending: None,
            bound: self.window.bound,
            limit: self.window.limit,
            last_continuation_key: self.window.last_continuation_key,
        };
        was_loading
    }

    /// Takes note of a wheel or touch event: the next scroll event is the
    /// user's.
    pub fn on_user_scroll(&mut self)
        ensures
            final(self)@ == old(self)@.touched(),
    {
        self.user_scrolling = true;
    }

    /// Handles a scroll event of a viewport that shows `result_count` items.
    /// The metrics are taken anew in any case. A load is asked for only
    /// where the scroll follows a wheel or touch event: the direction
    /// returned is to be passed to `load_more`.
    pub fn on_scroll(
        &mut self,
        viewport: Option<Viewport>,
        result_count: usize,
    ) -> (request: Option<LoadingDirection>)
        ensures
            final(self)@ == old(self)@.scrolled(viewport, result_count),
            request == old(self)@.scroll_request(viewport, result_count),
    {
        let v = match self.seen(viewport) {
            Some(v) => v,
            None => {
                return None;
            },
        };
        let moved_up = v.scroll_top < self.last_scroll_top;
        let moved_down = v.scroll_top > self.last_scroll_top;
        self.last_scroll_top = v.scroll_top;
        self.metrics = self.config.measure(v, result_count);
        if !self.user_scrolling {
            return None;
        }
        self.user_scrolling = false;
        if result_count == 0 {
            return None;
        }
        let idle = self.window.pending.is_none();
        if moved_up && self.metrics.top_gap < self.metrics.min_buffer && !self.at_earliest(
            result_count,
        ) && idle {
            Some(LoadingDirection::Backward)
        } else if moved_down && self.metrics.bottom_gap < self.metrics.min_buffer
            && !self.at_latest(result_count) && idle {
            Some(LoadingDirection::Forward)
        } else {
            None
        }
    }

    /// The command that moves the viewport to `target` millipixels: none
    /// where the viewport stands within a tenth of a pixel of it, and none
    /// without a viewport.
    pub fn scroll_to(&self, target: i64, viewport: Option<Viewport>) -> (command: Option<
        ScrollCommand,
    >)
        ensures
            command == self@.command_to(target as int, viewport),
    {
        match self.seen(viewport) {
            Some(v) => scroll_command(target as i128, v.scroll_top),
            None => None,
        }
    }

    /// The command that moves the viewport to the bottom of its content.
    pub fn scroll_to_bottom(&self, viewport: Option<Viewport>) -> (command: Option<ScrollCommand>)
        ensures
            command == self@.bottom_command(viewport),
    {
        match self.seen(viewport) {
            Some(v) => scroll_command(1000 * (v.scroll_height as i128), v.scroll_top),
            None => None,
        }
    }
}

} // verus!
