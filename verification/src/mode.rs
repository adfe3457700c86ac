//! The three query modes and the two directions of a page load.

use vstd::prelude::*;

verus! {

/// How the active window relates to the message stream.
#[derive(Clone, Copy, Debug, PartialEq, Eq, Structural)]
pub enum ScrollMode {
    /// Following the newest messages: descending order, no timestamp bound.
    Live,
    /// Paging toward older messages: descending order, bounded above.
    Backward,
    /// Paging toward newer messages: ascending order, bounded below.
    Forward,
}

/// The direction of a page load.
#[derive(Clone, Copy, Debug, PartialEq, Eq, Structural)]
pub enum LoadingDirection {
    /// Toward newer messages.
    Forward,
    /// Toward older messages.
    Backward,
}

impl LoadingDirection {
    /// The mode that a load in this direction puts the controller in.
    pub open spec fn paging_mode(self) -> ScrollMode {
        match self {
            LoadingDirection::Backward => ScrollMode::Backward,
            LoadingDirection::Forward => ScrollMode::Forward,
        }
    }

    /// The mode that a load in this direction puts the controller in: never
    /// `Live`.
    pub fn mode(self) -> (mode: ScrollMode)
        ensures
            mode == self.paging_mode(),
    {
        match self {
            LoadingDirection::Backward => ScrollMode::Backward,
            LoadingDirection::Forward => ScrollMode::Forward,
        }
    }
}

} // verus!
