//! Scoped timers that report how long a region of code took.
//!
//! A [`timer::LoggingTimer`] is opened at the top of a scope. It hands one
//! "finished" record to the `log` facade when it is finished, and
//! optionally a "starting" record and any number of "executing" records
//! before that. Every record carries the place where the timer was opened.
//!
//! A timer is finished by a call of `finish`, or by
//! [`timer::LoggingTimer::scope`], which runs a closure between opening and
//! finishing. It has no destructor that would do so.

pub mod bridge;
pub mod laws;
pub mod level;
pub mod message;
pub mod text;
pub mod timer;
pub mod wrapping;

pub use crate::bridge::is_enabled;
pub use crate::level::{Level, LevelFilter};
pub use crate::message::TimerTarget;
pub use crate::timer::LoggingTimer;
pub use crate::wrapping::{check_arguments, stime, time, Instrumentation, MacroError, MacroToken};
