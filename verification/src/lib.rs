//! Transient health bars for game entities.
//!
//! A bar appears above an entity when its health changes, is resized with
//! every further change, and disappears once the health has been left alone
//! for [`BAR_LIFETIME_NS`] nanoseconds. This crate holds the rules of that
//! feature on plain values: which child of an entity is its bar, when a bar is
//! created or refreshed, which bars are resized, and when a bar runs out. The
//! engine that owns the entities hands in what the rules read and carries out
//! what they decide.

pub mod activator;
pub mod countdown;
pub mod display_bar;
pub mod listing;
pub mod updater;

pub use activator::{activate_bars, find_display_bar, Activation};
pub use countdown::countdown_bars;
pub use display_bar::{DisplayHealthBar, BAR_LIFETIME_NS};
pub use updater::update_bars;

use vstd::prelude::*;

verus! {

/// Width of a bar at full health, in the engine's length unit.
pub const BAR_WIDTH: u32 = 50;

/// Height of every bar, in the engine's length unit.
pub const BAR_HEIGHT: u32 = 5;

} // verus!
