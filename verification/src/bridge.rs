//! The calls into the `log` facade and the system clock.
//!
//! The functions marked `external_body` are taken on trust: each makes one
//! call and says no more of it than the facade or the standard library
//! documents. The answers of the logger and of the clock depend on the
//! moment of the call, so nothing is promised of them.

use crate::level::{Level, LevelFilter};
use std::fmt::Arguments;
use std::time::{Duration, Instant};
use vstd::prelude::*;

verus! {

/// A point on the monotonic clock. Its inside is not visible to proofs.
#[verifier::external_type_specification]
#[verifier::external_body]
pub struct ExInstant(Instant);

/// The formatting arguments that a record carries as its message.
#[verifier::external_type_specification]
#[verifier::external_body]
pub struct ExArguments<'a>(Arguments<'a>);

/// The text that `{:?}` formatting gives for a duration, such as `1.5s` or
/// `28.835275ms`.
pub uninterp spec fn duration_text(d: Duration) -> Seq<char>;

/// The time from the instant `earlier` to the instant `later`, as
/// `Instant::duration_since` gives it.
pub uninterp spec fn span(later: Instant, earlier: Instant) -> Duration;

/// `log::STATIC_MAX_LEVEL`: the threshold that was compiled into the
/// facade, variant for variant. Nothing is claimed of which one it is.
#[verifier::external_body]
pub(crate) fn static_max_level() -> LevelFilter {
    match log::STATIC_MAX_LEVEL {
        log::LevelFilter::Off => LevelFilter::Off,
        log::LevelFilter::Error => LevelFilter::Error,
        log::LevelFilter::Warn => LevelFilter::Warn,
        log::LevelFilter::Info => LevelFilter::Info,
        log::LevelFilter::Debug => LevelFilter::Debug,
        log::LevelFilter::Trace => LevelFilter::Trace,
    }
}

/// `log::max_level()`: the threshold that the program has set for now,
/// variant for variant. It can change between two calls, so nothing is
/// claimed of it.
#[verifier::external_body]
pub(crate) fn max_level() -> LevelFilter {
    match log::max_level() {
        log::LevelFilter::Off => LevelFilter::Off,
        log::LevelFilter::Error => LevelFilter::Error,
        log::LevelFilter::Warn => LevelFilter::Warn,
        log::LevelFilter::Info => LevelFilter::Info,
        log::LevelFilter::Debug => LevelFilter::Debug,
        log::LevelFilter::Trace => LevelFilter::Trace,
    }
}

/// `log::Log::enabled` of the logger that `log::logger()` gives, asked
/// about a record at `level` for `target`. The answer is the logger's own
/// business.
#[verifier::external_body]
pub(crate) fn logger_enabled(level: Level, target: &str) -> bool {
    let lvl = match level {
        Level::Error => log::Level::Error,
        Level::Warn => log::Level::Warn,
        Level::Info => log::Level::Info,
        Level::Debug => log::Level::Debug,
        Level::Trace => log::Level::Trace,
    };
    log::logger().enabled(&log::Metadata::builder().level(lvl).target(target).build())
}

/// Whether a record at `level` passes both thresholds of the facade: the
/// one that was compiled in and the one that is set for now.
pub fn thresholds_allow(static_max: LevelFilter, max: LevelFilter, level: Level) -> (r: bool)
    ensures
        r == (static_max.allows(level) && max.allows(level)),
{
    static_max.lets_through(level) && max.lets_through(level)
}

/// Whether a record at `level` would be logged right now: the level passes
/// both thresholds of the facade, and the installed logger accepts it. The
/// logger is only asked where the thresholds allow the level. The answer
/// can differ from one call to the next.
pub fn is_enabled(level: Level) -> bool {
    thresholds_allow(static_max_level(), max_level(), level) && logger_enabled(level, "logging_timer")
}

/// The fields of a record other than its message.
pub(crate) struct Header<'a> {
    pub(crate) level: Level,
    pub(crate) target: &'a str,
    pub(crate) file: &'static str,
    pub(crate) module: &'static str,
    pub(crate) line: u32,
}

impl<'a> Header<'a> {
    /// `log::Log::log` of the logger that `log::logger()` gives, on a
    /// record that `log::RecordBuilder` builds from this header with `args`
    /// as its message. What the logger does with the record cannot be
    /// observed here, so nothing is claimed of it.
    #[verifier::external_body]
    fn write_fmt(&mut self, args: Arguments<'_>) {
        let lvl = match self.level {
            Level::Error => log::Level::Error,
            Level::Warn => log::Level::Warn,
            Level::Info => log::Level::Info,
            Level::Debug => log::Level::Debug,
            Level::Trace => log::Level::Trace,
        };
        let mut builder = log::Record::builder();
        builder.level(lvl).target(self.target).file(Some(self.file));
        builder.module_path_static(Some(self.module)).line(Some(self.line));
        log::logger().log(&builder.args(args).build());
    }
}

/// Hands one record to the logger. A record carries its message as
/// formatting arguments, which only a formatting macro can make: `write!`
/// makes them from `message` and passes them to `Header::write_fmt`, which
/// calls the logger. Nothing is claimed of the call.
#[verifier::external_body]
pub(crate) fn emit(header: Header<'_>, message: &str) {
    let mut header = header;
    write!(header, "{}", message);
}

/// `Instant::now()`: the current reading of the monotonic clock. Nothing
/// is claimed of it.
#[verifier::external_body]
pub(crate) fn clock_now() -> Instant {
    Instant::now()
}

/// `Instant::duration_since`: the time that has passed from `earlier` to
/// `later`, which depends on the two instants alone. The result is the
/// duration that `span` names.
#[verifier::external_body]
pub(crate) fn clock_between(later: &Instant, earlier: &Instant) -> (d: Duration)
    ensures
        d == span(*later, *earlier),
{
    later.duration_since(*earlier)
}

/// `{:?}` formatting of a `Duration`, which depends on the duration alone:
/// the result is the text that `duration_text` names.
#[verifier::external_body]
pub(crate) fn duration_debug(d: &Duration) -> (s: String)
    ensures
        s@ == duration_text(*d),
{
    format!("{:?}", d)
}

} // verus!
