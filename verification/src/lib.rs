//! The logic of a chat client, apart from its rendering.
//!
//! The heart of the crate is a windowed pagination controller. It keeps a
//! bounded, continuously updating slice of a room's timestamp-ordered
//! messages mapped onto a scrollable viewport, decides which window of
//! messages to request, and keeps the viewport visually stable while that
//! window slides. The controller touches neither a viewport nor a store: the
//! surrounding program reads the viewport, and carries out the queries,
//! listener changes and scroll corrections that the controller hands back.
//!
//! - `manager` holds the controller, `state` the state machine that it
//!   follows, and `laws` what holds of that machine whatever happens.
//! - `window`, `query`, `anchor` and `geometry` hold the parts: the window
//!   state, the query text, the continuation anchor and the measurements.
//! - `notifications` counts unread messages and paces the notification
//!   sound.
//! - `rooms`, `menu`, `readout`, `widgets`, `qr`, `require` and `text` hold
//!   the small rules of the pages around the chat.
//!
//! Lengths are integers. Whole pixels, as a browser reports them, are `i32`;
//! everything that may be fractional is an `i64` count of thousandths of a
//! pixel, here called millipixels. Times are `i64` milliseconds.

pub mod anchor;
pub mod effects;
pub mod geometry;
pub mod laws;
pub mod manager;
pub mod menu;
pub mod mode;
pub mod notifications;
pub mod qr;
pub mod query;
pub mod readout;
pub mod require;
pub mod rooms;
pub mod state;
pub mod text;
pub mod widgets;
pub mod window;

pub use crate::anchor::{ItemFrame, WindowItem};
pub use crate::effects::{Container, LiveEntry, LoadPlan, Rebinding, Settlement};
pub use crate::geometry::{ScrollCommand, ScrollConfig, ScrollMetrics, Viewport};
pub use crate::manager::ChatScrollManager;
pub use crate::mode::{LoadingDirection, ScrollMode};
pub use crate::notifications::NotificationManager;
pub use crate::query::{Bound, Order, WindowQuery};
pub use crate::require::Require;
pub use crate::window::ContinuationKey;
