//! Decision logic of a health-check service: configuration handling, the
//! retry state machine of a single check, report lines and Telegram alert
//! messages.  Network, clock and file access live in the application crate.

pub mod config;
pub mod health_checker;
pub mod telegram;
pub mod text;
