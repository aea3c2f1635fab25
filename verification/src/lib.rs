//! Supervision of a proxy engine: the decisions of its lifecycle as a
//! verified state machine, and the model of the tray's proxy selectors.
//!
//! The library performs no I/O. Every operation that needs the outside world
//! hands out an [`action::Action`] and is resumed with the
//! [`action::Outcome`] of that action, so that the order of the steps, the
//! handling of every failure and the recovery protocol are proved here, and
//! the program around the library only carries the actions out.

pub mod action;
pub mod drain;
pub mod error;
pub mod event;
pub mod instance;
pub mod laws;
pub mod lifecycle;
pub mod locate;
pub mod manager;
pub mod operations;
pub mod routing;
pub mod run_type;
pub mod state;
pub mod text;
pub mod tray;
