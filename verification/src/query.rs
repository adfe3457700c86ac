//! The window query: which slice of a room's messages the controller asks
//! the live store for.

use vstd::prelude::*;
use vstd::string::StringExecFns;
use crate::mode::LoadingDirection;
use crate::text::{decimal_digits, decimal_text, push_decimal, push_signed_decimal};

verus! {

/// The order in which the store returns the items of a window.
#[derive(Clone, Copy, Debug, PartialEq, Eq, Structural)]
pub enum Order {
    /// Oldest first.
    Ascending,
    /// Newest first.
    Descending,
}

/// The timestamp bound of a window.
#[derive(Clone, Copy, Debug, PartialEq, Eq, Structural)]
pub enum Bound {
    /// No bound: the newest items.
    Unbounded,
    /// Items whose timestamp is at most the given one.
    AtMost(i64),
    /// Items whose timestamp is at least the given one.
    AtLeast(i64),
}

impl Bound {
    /// The order that goes with this bound: ascending from a lower bound,
    /// descending otherwise.
    pub open spec fn fetch_order(self) -> Order {
        match self {
            Bound::AtLeast(_) => Order::Ascending,
            _ => Order::Descending,
        }
    }

    /// The bound of a page that continues toward `direction` from
    /// `timestamp`.
    pub open spec fn continuing(direction: LoadingDirection, timestamp: i64) -> Bound {
        match direction {
            LoadingDirection::Backward => Bound::AtMost(timestamp),
            LoadingDirection::Forward => Bound::AtLeast(timestamp),
        }
    }

    /// Whether an item with the timestamp `t` is within the bound.
    pub open spec fn admits(self, t: i64) -> bool {
        match self {
            Bound::Unbounded => true,
            Bound::AtMost(most) => t <= most,
            Bound::AtLeast(least) => t >= least,
        }
    }

    /// Whether an item with the timestamp `t` is within the bound.
    pub fn holds(&self, t: i64) -> (within: bool)
        ensures
            within == self.admits(t),
    {
        match self {
            Bound::Unbounded => true,
            Bound::AtMost(most) => t <= *most,
            Bound::AtLeast(least) => t >= *least,
        }
    }

    /// The order that goes with this bound.
    pub fn order(&self) -> (order: Order)
        ensures
            order == self.fetch_order(),
    {
        match self {
            Bound::AtLeast(_) => Order::Ascending,
            _ => Order::Descending,
        }
    }

    /// The bound of a page that continues toward `direction` from
    /// `timestamp`.
    pub fn continue_from(direction: LoadingDirection, timestamp: i64) -> (bound: Bound)
        ensures
            bound == Bound::continuing(direction, timestamp),
    {
        match direction {
            LoadingDirection::Backward => Bound::AtMost(timestamp),
            LoadingDirection::Forward => Bound::AtLeast(timestamp),
        }
    }
}

/// A window query: the room it is scoped to, its timestamp bound and the
/// number of items it asks for.
#[derive(Clone, Debug, PartialEq, Eq)]
pub struct WindowQuery {
    /// The room whose messages are selected.
    pub scope: String,
    /// The timestamp bound; it also fixes the order.
    pub bound: Bound,
    /// The number of items asked for.
    pub limit: usize,
}

/// What a window query is, with the room as a sequence of characters.
pub struct WindowQueryView {
    pub scope: Seq<char>,
    pub bound: Bound,
    pub limit: usize,
}

impl View for WindowQuery {
    type V = WindowQueryView;

    open spec fn view(&self) -> WindowQueryView {
        WindowQueryView { scope: self.scope@, bound: self.bound, limit: self.limit }
    }
}

impl WindowQueryView {
    /// The order in which the store returns the window's items.
    pub open spec fn order(self) -> Order {
        self.bound.fetch_order()
    }

    /// The clause that restricts the timestamp; empty for an unbounded
    /// window.
    pub open spec fn bound_clause(self) -> Seq<char> {
        match self.bound {
            Bound::Unbounded => Seq::empty(),
            Bound::AtMost(t) => " AND timestamp <= "@ + decimal_text(t as int),
            Bound::AtLeast(t) => " AND timestamp >= "@ + decimal_text(t as int),
        }
    }

    /// The word that names the order.
    pub open spec fn order_word(self) -> Seq<char> {
        match self.order() {
            Order::Ascending => "ASC"@,
            Order::Descending => "DESC"@,
        }
    }

    /// The selection that the live store is given for this window.
    pub open spec fn selection(self) -> Seq<char> {
        "room = '"@ + self.scope + "' AND deleted = false"@ + self.bound_clause()
            + " ORDER BY timestamp "@ + self.order_word() + " LIMIT "@ + decimal_digits(
            self.limit as nat,
        )
    }
}

impl WindowQuery {
    /// The order in which the store returns the window's items.
    pub fn order(&self) -> (order: Order)
        ensures
            order == self@.order(),
    {
        self.bound.order()
    }

    /// The selection that the live store is given for this window: the
    /// room, the timestamp bound where there is one, the order and the limit.
    pub fn selection(&self) -> (text: String)
        ensures
            text@ == self@.selection(),
    {
        let mut text = String::from_str("room = '");
        text.append(self.scope.as_str());
        text.append("' AND deleted = false");
        match self.bound {
            Bound::Unbounded => {},
            Bound::AtMost(t) => {
                text.append(" AND timestamp <= ");
                push_signed_decimal(&mut text, t);
            },
            Bound::AtLeast(t) => {
                text.append(" AND timestamp >= ");
                push_signed_decimal(&mut text, t);
            },
        }
        text.append(" ORDER BY timestamp ");
        match self.bound.order() {
            Order::Ascending => text.append("ASC"),
            Order::Descending => text.append("DESC"),
        }
        text.append(" LIMIT ");
        push_decimal(&mut text, self.limit as u64);
        text
    }
}

} // verus!
