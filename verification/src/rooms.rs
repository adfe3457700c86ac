//! The room list: which room opens first, and what its unread badge says.

use vstd::prelude::*;
use vstd::string::StringExecFns;
use crate::text::{decimal, decimal_digits, text_of};

verus! {

/// The number of unread messages from which the badge stops counting.
pub const BADGE_CAP: usize = 10;

/// A room of the list.
#[derive(Clone, Debug, PartialEq, Eq)]
pub struct RoomEntry {
    /// The room's identity.
    pub id: String,
    /// The room's name; empty where it could not be read.
    pub name: String,
}

/// What a room entry is, with its texts as sequences of characters.
pub struct RoomEntryView {
    pub id: Seq<char>,
    pub name: Seq<char>,
}

impl View for RoomEntry {
    type V = RoomEntryView;

    open spec fn view(&self) -> RoomEntryView {
        RoomEntryView { id: self.id@, name: self.name@ }
    }
}

/// The text of the unread badge: none for no unread message, the count up
/// to nine, and `10+` from ten on.
pub open spec fn badge_text(count: usize) -> Option<Seq<char>> {
    if count == 0 {
        None
    } else if count >= BADGE_CAP {
        Some("10+"@)
    } else {
        Some(decimal_digits(count as nat))
    }
}

/// The text of the unread badge of a room with `count` unread messages.
pub fn unread_badge(count: usize) -> (badge: Option<String>)
    ensures
        match badge {
            Some(text) => badge_text(count) == Some(text@),
            None => badge_text(count) is None,
        },
{
    if count == 0 {
        None
    } else if count >= BADGE_CAP {
        Some(String::from_str("10+"))
    } else {
        Some(decimal(count as u64))
    }
}

/// Room `i` is the first of `rooms` with the identity `id`.
pub open spec fn is_first_with_id(rooms: Seq<RoomEntry>, id: Seq<char>, i: int) -> bool {
    &&& 0 <= i < rooms.len()
    &&& rooms[i].id@ == id
    &&& forall|j: int| 0 <= j < i ==> rooms[j].id@ != id
}

/// Room `i` is the first of `rooms` with the name `name`.
pub open spec fn is_first_with_name(rooms: Seq<RoomEntry>, name: Seq<char>, i: int) -> bool {
    &&& 0 <= i < rooms.len()
    &&& rooms[i].name@ == name
    &&& forall|j: int| 0 <= j < i ==> rooms[j].name@ != name
}

/// Room `i` is the one that opens first: the first with the wanted
/// identity, or, where none is wanted or none has it, the first that is
/// named `General`.
pub open spec fn is_opening_room(rooms: Seq<RoomEntry>, wanted: Option<Seq<char>>, i: int) -> bool {
    ||| wanted is Some && is_first_with_id(rooms, wanted->0, i)
    ||| {
        &&& wanted is Some ==> forall|j: int| 0 <= j < rooms.len() ==> rooms[j].id@ != wanted->0
        &&& is_first_with_name(rooms, "General"@, i)
    }
}

/// Finds the first room with the identity `id`.
pub fn find_by_id(rooms: &Vec<RoomEntry>, id: &String) -> (found: Option<usize>)
    ensures
        match found {
            Some(i) => is_first_with_id(rooms@, id@, i as int),
            None => forall|j: int| 0 <= j < rooms.len() ==> rooms[j].id@ != id@,
        },
{
    let mut i: usize = 0;
    while i < rooms.len()
        invariant
            0 <= i <= rooms.len(),
            forall|j: int| 0 <= j < i ==> rooms[j].id@ != id@,
        decreases rooms.len() - i,
    {
        if rooms[i].id == *id {
            return Some(i);
        }
        i = i + 1;
    }
    None
}

/// Finds the first room with the name `name`.
pub fn find_by_name(rooms: &Vec<RoomEntry>, name: &String) -> (found: Option<usize>)
    ensures
        match found {
            Some(i) => is_first_with_name(rooms@, name@, i as int),
            None => forall|j: int| 0 <= j < rooms.len() ==> rooms[j].name@ != name@,
        },
{
    let mut i: usize = 0;
    while i < rooms.len()
        invariant
            0 <= i <= rooms.len(),
            forall|j: int| 0 <= j < i ==> rooms[j].name@ != name@,
        decreases rooms.len() - i,
    {
        if rooms[i].name == *name {
            return Some(i);
        }
        i = i + 1;
    }
    None
}

/// Picks the room to open while none is selected: the first room with the
/// identity `wanted`, and else the first room named `General`. Nothing is
/// picked while a room is selected, and nothing where no room qualifies.
pub fn choose_room(selected: bool, rooms: &Vec<RoomEntry>, wanted: &Option<String>) -> (chosen:
    Option<usize>)
    ensures
        selected ==> chosen is None,
        !selected ==> match chosen {
            Some(i) => is_opening_room(rooms@, text_of(*wanted), i as int),
            None => forall|i: int| !is_opening_room(rooms@, text_of(*wanted), i),
        },
{
    if selected {
        return None;
    }
    match wanted {
        Some(id) => {
            match find_by_id(rooms, id) {
                Some(i) => {
                    return Some(i);
                },
                None => {},
            }
        },
        None => {},
    }
    let general = String::from_str("General");
    find_by_name(rooms, &general)
}

} // verus!
