//! What the screens show and how touches on them are read.
pub mod draw;
pub mod framebuffer;
pub mod list;
pub mod menu;
pub mod screens;
pub mod terminal;
pub mod theme;
pub use list::list_touch_index;
use vstd::prelude::*;

verus! {

/// How long a list title stands before it is refreshed, in nanoseconds.
pub const MENU_TITLE_REFRESH_DELAY: u64 = 60_000_000_000;

} // verus!
