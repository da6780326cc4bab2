//! Decision and scheduling logic of the sunsetr blue-light daemon.
//!
//! The library holds what the daemon computes: the period of the day and how
//! it changes, the transition windows of the clock and geo schedules, the
//! lock-file record of a running instance, signal and event handling
//! decisions, and the text the logger prints.

pub mod clock;
pub mod cycle;
pub mod geo;
pub mod instance;
pub mod ipc;
pub mod launcher;
pub mod logger;
pub mod period;
pub mod report;
pub mod schedule;
pub mod signals;
pub mod simulation;
pub mod smoothing;
pub mod spawn;
pub mod solar;
pub mod state;
pub mod text;
pub mod workflow;

pub use launcher::Sunsetr;
pub use schedule::time_until_next_event;
