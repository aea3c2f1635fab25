//! The proxy selectors of the tray: which groups are shown, what changed
//! between two looks at them, and the menu that shows them.

pub mod code;
pub mod diff;
pub mod entries;
pub mod follow;
pub mod item;
pub mod menu;
pub mod proxies;
pub mod selection;
pub mod setup;
