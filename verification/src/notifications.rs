//! Unread counts and notification sounds.
//!
//! Each room of the list is watched through a small query of its newest
//! messages. The first change that a watch reports is its initial load; every
//! later one may bring messages from other users, which count as unread
//! unless the room is the active one, and which sound the notification, at
//! most once in a while.

use vstd::prelude::*;
use crate::query::{Bound, WindowQuery, WindowQueryView};
use crate::text::{same_text, text_of};

verus! {

/// The time that must pass between two notification sounds, in
/// milliseconds.
pub const SOUND_DEBOUNCE_MS: i64 = 300;

/// The number of messages that a watch asks for.
pub const WATCH_LIMIT: usize = 10;

/// The watch on one room.
#[derive(Clone, Debug, PartialEq, Eq)]
pub struct RoomWatch {
    /// The room.
    pub room_id: String,
    /// Whether the watch has reported its initial load.
    pub primed: bool,
    /// The number of unread messages from other users.
    pub unread: usize,
}

/// What a watch is, with the room as a sequence of characters.
pub struct WatchView {
    pub room_id: Seq<char>,
    pub primed: bool,
    pub unread: usize,
}

impl View for RoomWatch {
    type V = WatchView;

    open spec fn view(&self) -> WatchView {
        WatchView { room_id: self.room_id@, primed: self.primed, unread: self.unread }
    }
}

/// What the notification manager remembers.
pub struct NotificationState {
    /// The user whose own messages do not notify.
    pub current_user: Option<Seq<char>>,
    /// The room whose window is live and visible.
    pub active_room: Option<Seq<char>>,
    /// The watches, in the order in which the rooms were added.
    pub watches: Seq<WatchView>,
    /// When the sound was last played, in milliseconds.
    pub last_sound_at: i64,
    /// Whether the sound is ready to be played.
    pub sound_loaded: bool,
}

/// The number of `authors` that are not `user`. An author that could not be
/// read is another user's unless no user is known either.
pub open spec fn others_among(authors: Seq<Option<String>>, user: Option<Seq<char>>) -> nat
    decreases authors.len(),
{
    if authors.len() == 0 {
        0
    } else {
        others_among(authors.drop_last(), user) + if text_of(authors.last()) != user {
            1nat
        } else {
            0nat
        }
    }
}

/// The room and the count of a watch with unread messages.
pub open spec fn unread_pair(watch: WatchView) -> Option<(Seq<char>, usize)> {
    if watch.unread > 0 {
        Some((watch.room_id, watch.unread))
    } else {
        None
    }
}

/// `count` more than `unread`, as far as can be counted.
pub open spec fn raised(unread: usize, count: nat) -> usize {
    if unread + count > usize::MAX {
        usize::MAX
    } else {
        (unread + count) as usize
    }
}

/// Watch `i` is the first of `watches` on `room_id`.
pub open spec fn is_slot(watches: Seq<WatchView>, room_id: Seq<char>, i: int) -> bool {
    &&& 0 <= i < watches.len()
    &&& watches[i].room_id == room_id
    &&& forall|j: int| 0 <= j < i ==> watches[j].room_id != room_id
}

/// The place of the watch on `room_id` among `watches`, if there is one.
pub open spec fn slot_in(watches: Seq<WatchView>, room_id: Seq<char>) -> Option<int> {
    if exists|i: int| is_slot(watches, room_id, i) {
        Some(choose|i: int| is_slot(watches, room_id, i))
    } else {
        None
    }
}

impl NotificationState {
    /// The manager before any room was added.
    pub open spec fn initial(current_user: Option<Seq<char>>) -> NotificationState {
        NotificationState {
            current_user,
            active_room: None,
            watches: Seq::empty(),
            last_sound_at: 0,
            sound_loaded: false,
        }
    }

    /// No room is watched twice.
    pub open spec fn wf(self) -> bool {
        forall|i: int, j: int|
            0 <= i < j < self.watches.len() ==> self.watches[i].room_id != self.watches[j].room_id
    }

    /// The place of the watch on `room_id`, if the room is watched.
    pub open spec fn slot(self, room_id: Seq<char>) -> Option<int> {
        slot_in(self.watches, room_id)
    }

    /// Whether `room_id` is watched.
    pub open spec fn watches_room(self, room_id: Seq<char>) -> bool {
        self.slot(room_id) is Some
    }

    /// The number of unread messages of `room_id`: none for a room that is
    /// not watched.
    pub open spec fn unread_of(self, room_id: Seq<char>) -> usize {
        match self.slot(room_id) {
            Some(i) => self.watches[i].unread,
            None => 0,
        }
    }

    /// The query of the watch on `room_id`: its newest messages.
    pub open spec fn watch_query(room_id: Seq<char>) -> WindowQueryView {
        WindowQueryView { scope: room_id, bound: Bound::Unbounded, limit: WATCH_LIMIT }
    }

    /// The manager after `room_id` was added: watched from now on, unless it
    /// was already.
    pub open spec fn added(self, room_id: Seq<char>) -> NotificationState {
        if self.watches_room(room_id) {
            self
        } else {
            NotificationState {
                watches: self.watches.push(WatchView { room_id, primed: false, unread: 0 }),
                ..self
            }
        }
    }

    /// The manager after `room_id` was removed: its watch and its unread
    /// count are gone.
    pub open spec fn removed(self, room_id: Seq<char>) -> NotificationState {
        match self.slot(room_id) {
            Some(i) => NotificationState { watches: self.watches.remove(i), ..self },
            None => self,
        }
    }

    /// The manager after `room_id` was read.
    pub open spec fn read(self, room_id: Seq<char>) -> NotificationState {
        match self.slot(room_id) {
            Some(i) => NotificationState {
                watches: self.watches.update(i, WatchView { unread: 0, ..self.watches[i] }),
                ..self
            },
            None => self,
        }
    }

    /// The manager after `room_id`, or no room, became the active one: an
    /// active room is read.
    pub open spec fn activated(self, room_id: Option<Seq<char>>) -> NotificationState {
        let marked = NotificationState { active_room: room_id, ..self };
        match room_id {
            Some(id) => marked.read(id),
            None => marked,
        }
    }

    /// Whether the sound is played at `now`: not within the debounce time of
    /// the last one, and not before it is loaded.
    pub open spec fn sound_due(self, now: i64) -> bool {
        now - self.last_sound_at >= SOUND_DEBOUNCE_MS && self.sound_loaded
    }

    /// The manager after the sound was asked for at `now`.
    pub open spec fn sounded(self, now: i64) -> NotificationState {
        if self.sound_due(now) {
            NotificationState { last_sound_at: now, ..self }
        } else {
            self
        }
    }

    /// The manager after `user` became the current user.
    pub open spec fn signed_in(self, user: Option<Seq<char>>) -> NotificationState {
        NotificationState { current_user: user, ..self }
    }

    /// The manager after the sound was loaded.
    pub open spec fn loaded(self) -> NotificationState {
        NotificationState { sound_loaded: true, ..self }
    }

    /// Whether a change of `room_id` that added messages by `authors`
    /// notifies: the room is watched, the change is not the watch's initial
    /// load, and a message is from another user.
    pub open spec fn notifies(self, room_id: Seq<char>, authors: Seq<Option<String>>) -> bool {
        match self.slot(room_id) {
            Some(i) => self.watches[i].primed && others_among(authors, self.current_user) > 0,
            None => false,
        }
    }

    /// The manager after a change of `room_id` was counted: the initial load
    /// primes the watch, and a later change raises the unread count by the
    /// number of messages from other users unless the room is the active
    /// one.
    pub open spec fn counted(
        self,
        room_id: Seq<char>,
        authors: Seq<Option<String>>,
    ) -> NotificationState {
        match self.slot(room_id) {
            Some(i) => {
                let watch = self.watches[i];
                if !watch.primed {
                    NotificationState {
                        watches: self.watches.update(i, WatchView { primed: true, ..watch }),
                        ..self
                    }
                } else if self.active_room == Some(room_id) || others_among(
                    authors,
                    self.current_user,
                ) == 0 {
                    self
                } else {
                    NotificationState {
                        watches: self.watches.update(
                            i,
                            WatchView {
                                unread: raised(
                                    watch.unread,
                                    others_among(authors, self.current_user),
                                ),
                                ..watch
                            },
                        ),
                        ..self
                    }
                }
            },
            None => self,
        }
    }

    /// The manager after a change of `room_id` at `now`: counted, and the
    /// sound asked for where the change notifies.
    pub open spec fn changed(
        self,
        room_id: Seq<char>,
        authors: Seq<Option<String>>,
        now: i64,
    ) -> NotificationState {
        if self.notifies(room_id, authors) {
            self.counted(room_id, authors).sounded(now)
        } else {
            self.counted(room_id, authors)
        }
    }

    /// The rooms with unread messages and their counts, in the order in
    /// which the rooms were added.
    pub open spec fn unread_rooms(self) -> Seq<(Seq<char>, usize)> {
        self.watches.filter_map(|w: WatchView| unread_pair(w))
    }
}

/// The views of a sequence of watches.
pub open spec fn views_of(watches: Seq<RoomWatch>) -> Seq<WatchView> {
    watches.map_values(|w: RoomWatch| w@)
}

/// The views of a sequence of pairs of a room and a count.
pub open spec fn pairs_of(pairs: Seq<(String, usize)>) -> Seq<(Seq<char>, usize)> {
    pairs.map_values(|p: (String, usize)| (p.0@, p.1))
}

/// A room that a watch names has a slot, at or before that watch.
pub proof fn watched_room_has_slot(watches: Seq<WatchView>, room_id: Seq<char>, j: int)
    requires
        0 <= j < watches.len(),
        watches[j].room_id == room_id,
    ensures
        slot_in(watches, room_id) is Some,
        slot_in(watches, room_id)->0 <= j,
        is_slot(watches, room_id, slot_in(watches, room_id)->0),
    decreases j,
{
    if forall|k: int| 0 <= k < j ==> watches[k].room_id != room_id {
        assert(is_slot(watches, room_id, j));
        let i = choose|i: int| is_slot(watches, room_id, i);
        if j < i {
            assert(watches[j].room_id != room_id);
        }
    } else {
        let k = choose|k: int| 0 <= k < j && watches[k].room_id == room_id;
        watched_room_has_slot(watches, room_id, k);
    }
}

/// A room is watched exactly where some watch names it, and the slot of a
/// watched room holds a watch on it.
pub proof fn slot_finds_the_watch(s: NotificationState, room_id: Seq<char>)
    ensures
        s.watches_room(room_id) <==> exists|j: int|
            0 <= j < s.watches.len() && s.watches[j].room_id == room_id,
        match s.slot(room_id) {
            Some(i) => 0 <= i < s.watches.len() && s.watches[i].room_id == room_id,
            None => true,
        },
{
    if exists|j: int| 0 <= j < s.watches.len() && s.watches[j].room_id == room_id {
        let j = choose|j: int| 0 <= j < s.watches.len() && s.watches[j].room_id == room_id;
        watched_room_has_slot(s.watches, room_id, j);
    }
}

/// No manager watches a room twice: the first manager watches none, and
/// every operation keeps the rooms distinct.
pub proof fn rooms_stay_distinct(
    s: NotificationState,
    room_id: Seq<char>,
    active: Option<Seq<char>>,
    authors: Seq<Option<String>>,
    now: i64,
)
    requires
        s.wf(),
    ensures
        NotificationState::initial(s.current_user).wf(),
        s.added(room_id).wf(),
        s.removed(room_id).wf(),
        s.read(room_id).wf(),
        s.activated(active).wf(),
        s.counted(room_id, authors).wf(),
        s.changed(room_id, authors, now).wf(),
        s.sounded(now).wf(),
        s.loaded().wf(),
        s.signed_in(active).wf(),
{
    slot_finds_the_watch(s, room_id);
    if !s.watches_room(room_id) {
        assert forall|i: int, j: int| 0 <= i < j < s.added(room_id).watches.len() implies s.added(
            room_id,
        ).watches[i].room_id != s.added(room_id).watches[j].room_id by {
            if j == s.watches.len() {
                assert(s.watches[i].room_id != room_id);
            }
        }
    }
    match active {
        Some(id) => {
            slot_finds_the_watch(NotificationState { active_room: active, ..s }, id);
        },
        None => {},
    }
}

/// A room that was removed is watched no more and has nothing unread.
pub proof fn removed_room_is_forgotten(s: NotificationState, room_id: Seq<char>)
    requires
        s.wf(),
    ensures
        !s.removed(room_id).watches_room(room_id),
        s.removed(room_id).unread_of(room_id) == 0,
{
    slot_finds_the_watch(s, room_id);
    let after = s.removed(room_id);
    match s.slot(room_id) {
        Some(i) => {
            assert forall|j: int| 0 <= j < after.watches.len() implies after.watches[j].room_id
                != room_id by {
                if j < i {
                    assert(after.watches[j] == s.watches[j]);
                } else {
                    assert(after.watches[j] == s.watches[j + 1]);
                }
            }
        },
        None => {},
    }
    slot_finds_the_watch(after, room_id);
}

/// A room that was added is watched, and adding it again changes nothing.
pub proof fn added_room_is_watched(s: NotificationState, room_id: Seq<char>)
    ensures
        s.added(room_id).watches_room(room_id),
        s.added(room_id).added(room_id) == s.added(room_id),
        !s.watches_room(room_id) ==> s.added(room_id).unread_of(room_id) == 0,
{
    slot_finds_the_watch(s, room_id);
    let after = s.added(room_id);
    if !s.watches_room(room_id) {
        let last = s.watches.len() as int;
        assert(after.watches[last].room_id == room_id);
        assert(is_slot(after.watches, room_id, last));
        slot_is_unique(after, room_id, last);
    }
}

/// The active room has nothing unread when it becomes active, and a change
/// in it leaves its unread count as it is.
pub proof fn active_room_stays_read(
    s: NotificationState,
    room_id: Seq<char>,
    authors: Seq<Option<String>>,
    now: i64,
)
    ensures
        s.activated(Some(room_id)).unread_of(room_id) == 0,
        s.activated(Some(room_id)).active_room == Some(room_id),
        s.active_room == Some(room_id) ==> s.changed(room_id, authors, now).unread_of(room_id)
            == s.unread_of(room_id),
{
    let marked = NotificationState { active_room: Some(room_id), ..s };
    slot_finds_the_watch(marked, room_id);
    match marked.slot(room_id) {
        Some(i) => {
            let after = marked.read(room_id);
            assert(is_slot(after.watches, room_id, i)) by {
                assert(is_slot(marked.watches, room_id, i));
            }
            slot_is_unique(after, room_id, i);
        },
        None => {},
    }
    if s.active_room == Some(room_id) {
        slot_finds_the_watch(s, room_id);
        match s.slot(room_id) {
            Some(i) => {
                let counted = s.counted(room_id, authors);
                assert(is_slot(s.watches, room_id, i));
                assert(is_slot(counted.watches, room_id, i));
                slot_is_unique(counted, room_id, i);
                slot_is_unique(counted.sounded(now), room_id, i);
            },
            None => {},
        }
    }
}

/// The first change that a watch reports only primes it: nothing becomes
/// unread and nothing sounds. A change of a room that is not watched does
/// nothing at all.
pub proof fn first_change_only_primes(
    s: NotificationState,
    room_id: Seq<char>,
    authors: Seq<Option<String>>,
    now: i64,
)
    ensures
        match s.slot(room_id) {
            Some(i) => !s.watches[i].primed ==> {
                &&& !s.notifies(room_id, authors)
                &&& s.changed(room_id, authors, now).watches == s.watches.update(
                    i,
                    WatchView { primed: true, ..s.watches[i] },
                )
                &&& s.changed(room_id, authors, now).last_sound_at == s.last_sound_at
            },
            None => s.changed(room_id, authors, now) == s,
        },
{
}

/// Two sounds are at least the debounce time apart: once the sound was
/// played at `now`, it is not due again before that time has passed.
pub proof fn sound_is_debounced(s: NotificationState, now: i64, later: i64)
    requires
        s.sound_due(now),
        now <= later < now + SOUND_DEBOUNCE_MS,
    ensures
        !s.sounded(now).sound_due(later),
{
}

/// Tracks unread messages per room and decides when the notification sounds.
pub struct NotificationManager {
    current_user: Option<String>,
    active_room: Option<String>,
    watches: Vec<RoomWatch>,
    last_sound_at: i64,
    sound_loaded: bool,
}

impl View for NotificationManager {
    type V = NotificationState;

    closed spec fn view(&self) -> NotificationState {
        NotificationState {
            current_user: text_of(self.current_user),
            active_room: text_of(self.active_room),
            watches: views_of(self.watches@),
            last_sound_at: self.last_sound_at,
            sound_loaded: self.sound_loaded,
        }
    }
}

/// A slot is the only place of its room among the watches before and at it,
/// so that the place which `slot` names is the one that was found.
pub proof fn slot_is_unique(s: NotificationState, room_id: Seq<char>, i: int)
    requires
        is_slot(s.watches, room_id, i),
    ensures
        s.slot(room_id) == Some(i),
{
    let j = choose|j: int| is_slot(s.watches, room_id, j);
    if i < j {
        assert(s.watches[i].room_id != room_id);
    } else if j < i {
        assert(s.watches[j].room_id != room_id);
    }
}

/// A room that no watch names has no slot.
pub proof fn unwatched_has_no_slot(s: NotificationState, room_id: Seq<char>)
    requires
        forall|j: int| 0 <= j < s.watches.len() ==> s.watches[j].room_id != room_id,
    ensures
        s.slot(room_id) is None,
{
}

impl NotificationManager {
    /// Creates the manager for `current_user`: no room is watched, none is
    /// active, and the sound is not loaded.
    pub fn new(current_user: Option<String>) -> (manager: NotificationManager)
        ensures
            manager@ == NotificationState::initial(text_of(current_user)),
    {
        let manager = NotificationManager {
            current_user,
            active_room: None,
            watches: Vec::new(),
            last_sound_at: 0,
            sound_loaded: false,
        };
        assert(views_of(manager.watches@) =~= Seq::empty());
        manager
    }

    /// Finds the watch on `room_id`.
    fn find(&self, room_id: &String) -> (found: Option<usize>)
        ensures
            match found {
                Some(i) => i < self.watches.len() && self@.slot(room_id@) == Some(i as int)
                    && self.watches[i as int].room_id@ == room_id@,
                None => self@.slot(room_id@) is None,
            },
    {
        let mut i: usize = 0;
        while i < self.watches.len()
            invariant
                0 <= i <= self.watches.len(),
                forall|j: int| 0 <= j < i ==> self.watches[j].room_id@ != room_id@,
            decreases self.watches.len() - i,
        {
            if self.watches[i].room_id == *room_id {
                proof {
                    assert forall|j: int| 0 <= j < i implies self@.watches[j].room_id
                        != room_id@ by {
                        assert(self@.watches[j] == self.watches[j]@);
                    }
                    assert(self@.watches[i as int] == self.watches[i as int]@);
                    slot_is_unique(self@, room_id@, i as int);
                }
                return Some(i);
            }
            i = i + 1;
        }
        proof {
            assert forall|j: int| 0 <= j < self@.watches.len() implies self@.watches[j].room_id
                != room_id@ by {
                assert(self@.watches[j] == self.watches[j]@);
            }
            unwatched_has_no_slot(self@, room_id@);
        }
        None
    }

    /// Whether `room_id` is watched.
    pub fn is_watched(&self, room_id: &String) -> (watched: bool)
        ensures
            watched == self@.watches_room(room_id@),
    {
        self.find(room_id).is_some()
    }

    /// The number of unread messages of `room_id`: none for a room that is
    /// not watched.
    pub fn unread_count(&self, room_id: &String) -> (count: usize)
        ensures
            count == self@.unread_of(room_id@),
    {
        match self.find(room_id) {
            Some(i) => {
                assert(self@.watches[i as int] == self.watches[i as int]@);
                self.watches[i].unread
            },
            None => 0,
        }
    }

    /// Starts to watch `room_id`. The query returned is the one to
    /// subscribe to: the ten newest messages of the room. A room that is
    /// watched already is left alone, and `None` is returned.
    pub fn add_room_query(&mut self, room_id: String) -> (query: Option<WindowQuery>)
        ensures
            final(self)@ == old(self)@.added(room_id@),
            match query {
                Some(q) => !old(self)@.watches_room(room_id@) && q@
                    == NotificationState::watch_query(room_id@),
                None => old(self)@.watches_room(room_id@),
            },
    {
        if self.find(&room_id).is_some() {
            return None;
        }
        let query = WindowQuery {
            scope: room_id.clone(),
            bound: Bound::Unbounded,
            limit: WATCH_LIMIT,
        };
        let ghost before = self.watches@;
        self.watches.push(RoomWatch { room_id, primed: false, unread: 0 });
        assert(views_of(self.watches@) =~= views_of(before).push(
            WatchView { room_id: room_id@, primed: false, unread: 0 },
        ));
        Some(query)
    }

    /// Stops watching `room_id` and forgets its unread count.
    pub fn remove_room_query(&mut self, room_id: &String)
        ensures
            final(self)@ == old(self)@.removed(room_id@),
    {
        match self.find(room_id) {
            Some(i) => {
                let ghost before = self.watches@;
                self.watches.remove(i);
                assert(views_of(self.watches@) =~= views_of(before).remove(i as int));
            },
            None => {},
        }
    }

    /// Forgets the unread count of `room_id`.
    pub fn mark_as_read(&mut self, room_id: &String)
        ensures
            final(self)@ == old(self)@.read(room_id@),
    {
        match self.find(room_id) {
            Some(i) => {
                let ghost before = self.watches@;
                self.watches[i].unread = 0;
                assert(views_of(self.watches@) =~= views_of(before).update(
                    i as int,
                    WatchView { unread: 0, ..views_of(before)[i as int] },
                ));
            },
            None => {},
        }
    }

    /// Makes `room_id` the active room, or none: messages that arrive in the
    /// active room do not count as unread, and what it had unread is read.
    pub fn set_active_room(&mut self, room_id: Option<String>)
        ensures
            final(self)@ == old(self)@.activated(text_of(room_id)),
    {
        match room_id {
            Some(id) => {
                self.mark_as_read(&id);
                self.active_room = Some(id);
            },
            None => {
                self.active_room = None;
            },
        }
    }

    /// Makes `user` the current user, whose own messages do not notify.
    pub fn set_current_user(&mut self, user: Option<String>)
        ensures
            final(self)@ == old(self)@.signed_in(text_of(user)),
    {
        self.current_user = user;
    }

    /// Takes note that the sound is loaded and can be played.
    pub fn sound_ready(&mut self)
        ensures
            final(self)@ == old(self)@.loaded(),
    {
        self.sound_loaded = true;
    }

    /// Decides whether the notification sounds at `now`, in milliseconds:
    /// not within 300 milliseconds of the last sound, and not before the
    /// sound is loaded. When it sounds, `now` is remembered.
    pub fn play_notification_sound(&mut self, now: i64) -> (play: bool)
        ensures
            play == old(self)@.sound_due(now),
            final(self)@ == old(self)@.sounded(now),
    {
        if (now as i128) - (self.last_sound_at as i128) < SOUND_DEBOUNCE_MS as i128 {
            return false;
        }
        if !self.sound_loaded {
            return false;
        }
        self.last_sound_at = now;
        true
    }

    /// The number of `authors` that are not the current user.
    pub fn count_others(&self, authors: &Vec<Option<String>>) -> (count: usize)
        ensures
            count == others_among(authors@, self@.current_user),
    {
        let mut count: usize = 0;
        let mut i: usize = 0;
        assert(authors@.subrange(0, 0) =~= Seq::empty());
        while i < authors.len()
            invariant
                0 <= i <= authors.len(),
                count <= i,
                count == others_among(authors@.subrange(0, i as int), text_of(self.current_user)),
            decreases authors.len() - i,
        {
            proof {
                let upto = authors@.subrange(0, i + 1);
                assert(upto.drop_last() =~= authors@.subrange(0, i as int));
                assert(upto.last() == authors@[i as int]);
            }
            if !same_text(&authors[i], &self.current_user) {
                count = count + 1;
            }
            i = i + 1;
        }
        assert(authors@.subrange(0, authors.len() as int) =~= authors@);
        count
    }

    /// Handles a change that the watch on `room_id` reports at `now`, in
    /// milliseconds: the authors of the messages that it added, `None` for
    /// one that could not be read. Returns whether the notification sounds.
    ///
    /// The first change of a watch is its initial load and only primes it.
    /// Later, messages from other users raise the room's unread count,
    /// unless the room is the active one, and ask for the sound in any case.
    pub fn on_changes(
        &mut self,
        room_id: &String,
        authors: &Vec<Option<String>>,
        now: i64,
    ) -> (play: bool)
        ensures
            final(self)@ == old(self)@.changed(room_id@, authors@, now),
            play == (old(self)@.notifies(room_id@, authors@) && old(self)@.counted(
                room_id@,
                authors@,
            ).sound_due(now)),
    {
        let i = match self.find(room_id) {
            Some(i) => i,
            None => {
                return false;
            },
        };
        let ghost before = self.watches@;
        assert(views_of(before)[i as int] == before[i as int]@);
        if !self.watches[i].primed {
            self.watches[i].primed = true;
            assert(views_of(self.watches@) =~= views_of(before).update(
                i as int,
                WatchView { primed: true, ..views_of(before)[i as int] },
            ));
            return false;
        }
        let others = self.count_others(authors);
        if others == 0 {
            return false;
        }
        let active = match &self.active_room {
            Some(active) => *active == *room_id,
            None => false,
        };
        if !active {
            let unread = if self.watches[i].unread > usize::MAX - others {
                usize::MAX
            } else {
                self.watches[i].unread + others
            };
            self.watches[i].unread = unread;
            assert(views_of(self.watches@) =~= views_of(before).update(
                i as int,
                WatchView { unread, ..views_of(before)[i as int] },
            ));
        }
        self.play_notification_sound(now)
    }

    /// The rooms with unread messages and their counts, in the order in
    /// which the rooms were added.
    pub fn unread_counts(&self) -> (counts: Vec<(String, usize)>)
        ensures
            pairs_of(counts@) == self@.unread_rooms(),
    {
        let mut counts: Vec<(String, usize)> = Vec::new();
        let mut i: usize = 0;
        let ghost pick = |w: WatchView| unread_pair(w);
        assert(pairs_of(counts@) =~= self@.watches.take(0).filter_map(pick));
        while i < self.watches.len()
            invariant
                0 <= i <= self.watches.len(),
                pick == |w: WatchView| unread_pair(w),
                pairs_of(counts@) == self@.watches.take(i as int).filter_map(pick),
            decreases self.watches.len() - i,
        {
            let ghost listed = counts@;
            proof {
                assert(self@.watches[i as int] == self.watches[i as int]@);
                self@.watches.lemma_filter_map_take_succ(pick, i as int);
            }
            if self.watches[i].unread > 0 {
                counts.push((self.watches[i].room_id.clone(), self.watches[i].unread));
                assert(pairs_of(counts@) =~= pairs_of(listed).push(
                    (self.watches[i as int].room_id@, self.watches[i as int].unread),
                ));
            }
            i = i + 1;
        }
        assert(self@.watches.take(self.watches.len() as int) =~= self@.watches);
        counts
    }
}

} // verus!
