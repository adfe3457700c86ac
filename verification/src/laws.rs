//! What holds of the controller whatever happens to it.
//!
//! Each law is stated over the state machine of `state`, whose transitions
//! the methods of `ChatScrollManager` take.

use vstd::prelude::*;
use crate::anchor::{anchor_is_member, measured, WindowItem};
use crate::effects::{Container, Rebinding, SettlementView};
use crate::geometry::Viewport;
use crate::mode::{LoadingDirection, ScrollMode};
use crate::query::{Bound, Order};
use crate::state::{Event, ManagerState};
use crate::window::ContinuationKey;

verus! {

/// A controller starts well formed, live and with nothing in flight.
pub proof fn initial_state_is_well_formed(room_id: Seq<char>)
    ensures
        ManagerState::initial(room_id).wf(),
        ManagerState::initial(room_id).window.mode is Live,
        ManagerState::initial(room_id).loading() is None,
        ManagerState::initial(room_id).query().bound is Unbounded,
        ManagerState::initial(room_id).query().order() is Descending,
{
}

/// Every event leaves a well-formed controller well formed.
pub proof fn events_keep_well_formed(s: ManagerState, event: Event)
    requires
        s.wf(),
    ensures
        s.after(event).wf(),
{
}

/// Whatever happens to a controller from its creation on, it stays well
/// formed: it is live exactly while it has no continuation key, a live
/// window is unbounded with nothing in flight, and a load in flight is the
/// one that the mode and the key record.
pub proof fn every_run_is_well_formed(room_id: Seq<char>, events: Seq<Event>)
    ensures
        ManagerState::initial(room_id).after_all(events).wf(),
    decreases events.len(),
{
    if events.len() > 0 {
        every_run_is_well_formed(room_id, events.drop_last());
        events_keep_well_formed(
            ManagerState::initial(room_id).after_all(events.drop_last()),
            events.last(),
        );
    }
}

/// A load is in flight from the event that starts it to the one that ends
/// it, and at no other time: asking for a load starts one only where it
/// hands out a plan, going live, settling and failing leave nothing in
/// flight, and no other event touches the load in flight.
pub proof fn loading_spans_one_load(s: ManagerState, event: Event)
    ensures
        match event {
            Event::LoadMore { direction, window, viewport } => s.after(event).loading() == (
            if s.plan_for(direction, window, viewport) is Some {
                Some(direction)
            } else {
                s.loading()
            }),
            Event::GoLive { .. } | Event::LoadSettled { .. } | Event::LoadFailed => s.after(
                event,
            ).loading() is None,
            _ => s.after(event).loading() == s.loading(),
        },
{
}

/// No second load starts while one is in flight: asking for one changes
/// nothing and hands out no plan, and a scroll event asks for none.
pub proof fn no_two_loads_at_once(
    s: ManagerState,
    direction: LoadingDirection,
    window: Seq<WindowItem>,
    viewport: Option<Viewport>,
    result_count: usize,
)
    requires
        s.loading() is Some,
    ensures
        s.plan_for(direction, window, viewport) is None,
        s.begun(direction, window, viewport) == s,
        s.scroll_request(viewport, result_count) is None,
{
}

/// The anchor of a load is a measured item of the displayed window. The
/// query of the load is bounded by that item's timestamp, so that the new
/// window overlaps the old one in the anchor, and ordered by the direction.
/// The offset at which the anchor was drawn is remembered until the load
/// settles.
pub proof fn planned_anchor_is_in_window(
    s: ManagerState,
    direction: LoadingDirection,
    window: Seq<WindowItem>,
    viewport: Option<Viewport>,
)
    ensures
        match s.plan_for(direction, window, viewport) {
            Some(plan) => {
                &&& 0 <= plan.anchor < window.len()
                &&& s.anchor_for(direction, window, viewport) == Some(plan.anchor)
                &&& plan.query.bound == Bound::continuing(
                    direction,
                    window[plan.anchor].boundary_timestamp(),
                )
                &&& plan.query.order() == match direction {
                    LoadingDirection::Backward => Order::Descending,
                    LoadingDirection::Forward => Order::Ascending,
                }
                &&& plan.query.bound.admits(window[plan.anchor].boundary_timestamp())
                &&& plan.query.scope == s.room_id
                &&& s.begun(direction, window, viewport).window.pending->0.before
                    == window[plan.anchor].drawn_offset()
                &&& window[plan.anchor].frame is Some
            },
            None => true,
        },
{
    match s.sees(viewport) {
        Some(v) => {
            anchor_is_member(direction, window, s.config.step_back_for(Some(v)));
            match s.plan_for(direction, window, viewport) {
                Some(plan) => {
                    assert(measured(window, plan.anchor));
                },
                None => {},
            }
        },
        None => {},
    }
}

/// The key of the last continuation holds back only the load that repeats
/// it: while nothing is in flight, an anchor with another timestamp, or a
/// load in the other direction, starts a load.
pub proof fn another_anchor_is_not_held_back(
    s: ManagerState,
    direction: LoadingDirection,
    window: Seq<WindowItem>,
    viewport: Option<Viewport>,
)
    requires
        s.loading() is None,
        s.anchor_for(direction, window, viewport) is Some,
        s.window.last_continuation_key != Some(
            ContinuationKey {
                direction,
                timestamp: window[s.anchor_for(
                    direction,
                    window,
                    viewport,
                )->0].boundary_timestamp(),
            },
        ),
    ensures
        s.plan_for(direction, window, viewport) is Some,
        s.begun(direction, window, viewport).loading() == Some(direction),
        s.begun(direction, window, viewport).window.mode == direction.paging_mode(),
{
}

/// Going live twice in a row is going live once: the second entry finds the
/// controller as the first left it and asks for the same query.
pub proof fn going_live_is_idempotent(s: ManagerState, viewport: Option<Viewport>)
    ensures
        s.gone_live(viewport).gone_live(viewport) == s.gone_live(viewport),
        s.gone_live(viewport).gone_live(viewport).live_entry() == s.gone_live(
            viewport,
        ).live_entry(),
{
}

/// A live controller has no continuation key and nothing in flight, and its
/// query is unbounded and descending.
pub proof fn going_live_resets_the_window(s: ManagerState, viewport: Option<Viewport>)
    ensures
        s.gone_live(viewport).window.mode is Live,
        s.gone_live(viewport).window.last_continuation_key is None,
        s.gone_live(viewport).loading() is None,
        s.gone_live(viewport).query().bound is Unbounded,
        s.gone_live(viewport).query().order() is Descending,
        s.gone_live(viewport).query().limit == s.config.limit_for(s.sees(viewport)),
        s.gone_live(viewport).live_entry().active_window == s.room_id,
{
}

/// A backward load never ends live: however few items its query returns, the
/// mode stays backward, and the window reaches the oldest item exactly where
/// the result is shorter than the limit asked for.
pub proof fn backward_load_stays_backward(
    s: ManagerState,
    result_count: usize,
    after: Option<i64>,
    viewport: Option<Viewport>,
)
    requires
        s.wf(),
        s.loading() == Some(LoadingDirection::Backward),
    ensures
        s.settled(result_count, viewport).window.mode is Backward,
        s.settled(result_count, viewport).loading() is None,
        s.settled(result_count, viewport).query().limit == s.window.pending->0.limit,
        s.settled(result_count, viewport).window.reaches_earliest(result_count) <==> result_count
            < s.window.pending->0.limit,
        !s.settled(result_count, viewport).window.reaches_latest(result_count),
        s.settlement_for(result_count, after, viewport) is Anchored,
{
}

/// A forward load ends live exactly where its query returns fewer items
/// than it asked for: the controller is then as `set_live_mode` leaves it,
/// without a continuation key. Otherwise the mode stays forward and the
/// query of the load is the active one.
pub proof fn forward_load_goes_live_when_short(
    s: ManagerState,
    result_count: usize,
    after: Option<i64>,
    viewport: Option<Viewport>,
)
    requires
        s.wf(),
        s.loading() == Some(LoadingDirection::Forward),
    ensures
        result_count < s.window.pending->0.limit ==> {
            &&& s.settled(result_count, viewport) == s.installed().gone_live(viewport)
            &&& s.settled(result_count, viewport).window.mode is Live
            &&& s.settled(result_count, viewport).window.last_continuation_key is None
            &&& s.settled(result_count, viewport).query().bound is Unbounded
            &&& s.settlement_for(result_count, after, viewport)
                == SettlementView::WentLive(s.settled(result_count, viewport).live_entry())
        },
        result_count >= s.window.pending->0.limit ==> {
            &&& s.settled(result_count, viewport).window.mode is Forward
            &&& s.settled(result_count, viewport).loading() is None
            &&& s.settled(result_count, viewport).query().bound == s.window.pending->0.bound()
            &&& s.settled(result_count, viewport).query().limit == s.window.pending->0.limit
            &&& s.settlement_for(result_count, after, viewport) is Anchored
        },
{
}

/// A failed load leaves the window in place: the active query, the mode and
/// the continuation key are what they were, and nothing is in flight.
pub proof fn failed_load_keeps_the_window(s: ManagerState)
    ensures
        s.failed().query() == s.query(),
        s.failed().window.mode == s.window.mode,
        s.failed().window.last_continuation_key == s.window.last_continuation_key,
        s.failed().loading() is None,
{
}

/// Offering the bound container again moves no listener and changes
/// nothing, and at most one listener set is active at any time.
pub proof fn rebinding_is_idempotent(s: ManagerState, container: Option<Container>)
    ensures
        s.rebound(container).rebound(container) == s.rebound(container),
        s.rebound(container).rebinding(container) == (Rebinding { detach: None, attach: None }),
        s.rebound(container).listener_sets() <= 1,
        s.rebinding(container).detach is Some ==> s.rebinding(container).detach == s.container,
        s.rebound(container).container == match container {
            Some(offered) => Some(offered.id),
            None => None,
        },
{
}

/// A controller that is bound to no container reads no geometry and moves no
/// viewport: it starts no load, asks for none, keeps its metrics, and every
/// command is `None`.
pub proof fn unbound_controller_moves_nothing(
    s: ManagerState,
    direction: LoadingDirection,
    window: Seq<WindowItem>,
    viewport: Option<Viewport>,
    result_count: usize,
    target: int,
    after: Option<i64>,
)
    requires
        s.container is None,
    ensures
        s.command_to(target, viewport) is None,
        s.bottom_command(viewport) is None,
        s.layout_command(viewport) is None,
        s.plan_for(direction, window, viewport) is None,
        s.scroll_request(viewport, result_count) is None,
        s.measured(viewport, result_count) == s,
        s.scrolled(viewport, result_count) == s,
        s.settlement_for(result_count, after, viewport) matches SettlementView::Anchored(
            command,
        ) ==> command is None,
{
}

/// Only a scroll that follows a wheel or touch event asks for a load, and
/// the scroll event uses that event up: the scroll event after it asks for
/// nothing.
pub proof fn only_user_scrolls_load(
    s: ManagerState,
    viewport: Option<Viewport>,
    result_count: usize,
    next_viewport: Option<Viewport>,
    next_count: usize,
)
    ensures
        !s.user_scrolling ==> s.scroll_request(viewport, result_count) is None,
        s.sees(viewport) is Some ==> s.scrolled(viewport, result_count).scroll_request(
            next_viewport,
            next_count,
        ) is None,
        s.scroll_request(viewport, result_count) == Some(LoadingDirection::Backward)
            ==> !s.window.reaches_earliest(result_count),
        s.scroll_request(viewport, result_count) == Some(LoadingDirection::Forward)
            ==> !s.window.reaches_latest(result_count),
{
}

/// The timestamps `ts` never fall from one to the next.
pub open spec fn oldest_first(ts: Seq<i64>) -> bool {
    forall|i: int, j: int| 0 <= i <= j < ts.len() ==> ts[i] <= ts[j]
}

/// The timestamps `ts` never rise from one to the next.
pub open spec fn newest_first(ts: Seq<i64>) -> bool {
    forall|i: int, j: int| 0 <= i <= j < ts.len() ==> ts[i] >= ts[j]
}

/// What the store returns in the order of the active query is displayed
/// oldest first, with nothing lost and nothing added.
pub proof fn display_order_is_oldest_first(s: ManagerState, fetched: Seq<i64>)
    requires
        s.window.order() is Descending ==> newest_first(fetched),
        s.window.order() is Ascending ==> oldest_first(fetched),
    ensures
        oldest_first(s.shown(fetched)),
        s.shown(fetched).len() == fetched.len(),
        s.shown(fetched).to_multiset() == fetched.to_multiset(),
{
    if s.window.order() is Descending {
        let shown = fetched.reverse();
        assert forall|i: int, j: int| 0 <= i <= j < shown.len() implies shown[i] <= shown[j] by {
            assert(shown[i] == fetched[fetched.len() - 1 - i]);
            assert(shown[j] == fetched[fetched.len() - 1 - j]);
        }
        fetched.lemma_reverse_to_multiset();
    }
}

/// While the window is well formed, the mode tells the order of a settled
/// window: live and backward windows are fetched newest first, and a forward
/// window that settled is fetched oldest first.
pub proof fn settled_order_follows_mode(
    s: ManagerState,
    result_count: usize,
    viewport: Option<Viewport>,
)
    requires
        s.wf(),
        s.loading() is Some,
    ensures
        s.settled(result_count, viewport).query().order() == (match s.settled(
            result_count,
            viewport,
        ).window.mode {
            ScrollMode::Forward => Order::Ascending,
            _ => Order::Descending,
        }),
{
}

} // verus!
