//! A small terminal GPU dashboard, verified.
//!
//! The core of the dashboard is pure: metric samples become severity tiers,
//! gauge ratios and display strings, and a tick/key state machine drives the
//! refresh loop. All of that lives here with contracts. Terminal I/O (raw
//! mode, event polling, widget drawing) stays outside the library.

pub mod fmt;
pub mod metrics;
pub mod render;
pub mod state;
pub mod tier;
