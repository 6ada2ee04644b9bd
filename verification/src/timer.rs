//! The scoped timer and the protocol of its records.

use crate::bridge::{clock_between, clock_now, duration_debug, duration_text, emit, is_enabled, span, Header};
use crate::level::Level;
use crate::message::{message_text, render, Emitted, TimerTarget};
use std::time::{Duration, Instant};
use vstd::prelude::*;

verus! {

/// What a timer is to a proof: the values it was opened with, whether it has
/// been finished, and the records it has handed to the logger so far, oldest
/// first.
pub struct TimerView {
    pub level: Level,
    pub file: Seq<char>,
    pub module: Seq<char>,
    pub line: u32,
    pub name: Seq<char>,
    pub extra_info: Option<Seq<char>>,
    pub start_time: Instant,
    pub finished: bool,
    pub history: Seq<Emitted>,
}

/// A request made of a timer after it was opened, together with what the
/// logger and the clock answered when it was made: `reading` is the elapsed
/// time, or `None` where the level was disabled at that moment. The end of
/// the timer's scope is a request to finish without arguments.
pub enum Request {
    Executing { reading: Option<Duration>, args: Option<Seq<char>> },
    Finish { reading: Option<Duration>, args: Option<Seq<char>> },
}

/// The number of records for `target` in `history`.
pub open spec fn count(history: Seq<Emitted>, target: TimerTarget) -> nat
    decreases history.len(),
{
    if history.len() == 0 {
        0
    } else {
        count(history.drop_last(), target) + if history.last().target == target {
            1nat
        } else {
            0nat
        }
    }
}

/// Whether `requests` holds a request to finish and the level was enabled
/// at the first of them.
pub open spec fn first_finish_enabled(requests: Seq<Request>) -> bool
    decreases requests.len(),
{
    if requests.len() == 0 {
        false
    } else {
        match requests[0] {
            Request::Finish { reading, .. } => reading is Some,
            Request::Executing { .. } => first_finish_enabled(requests.drop_first()),
        }
    }
}

/// Whether the level was disabled at every one of `requests`.
pub open spec fn all_disabled(requests: Seq<Request>) -> bool {
    forall|i: int|
        0 <= i < requests.len() ==> match #[trigger] requests[i] {
            Request::Finish { reading, .. } => reading is None,
            Request::Executing { reading, .. } => reading is None,
        }
}

/// The elapsed time that a timer started at `start_time` reads at the
/// instant `now`; none where no instant was read, as the level was disabled.
pub open spec fn reading_at(now: Option<Instant>, start_time: Instant) -> Option<Duration> {
    match now {
        Some(now) => Some(span(now, start_time)),
        None => None,
    }
}

/// The text of the elapsed time in a message, where one is reported.
pub open spec fn elapsed_text(elapsed: Option<Duration>) -> Option<Seq<char>> {
    match elapsed {
        Some(d) => Some(duration_text(d)),
        None => None,
    }
}

impl TimerView {
    /// A timer that was just opened: not finished, nothing logged.
    pub open spec fn opened(
        start_time: Instant,
        file: Seq<char>,
        module: Seq<char>,
        line: u32,
        name: Seq<char>,
        extra_info: Option<Seq<char>>,
        level: Level,
    ) -> TimerView {
        TimerView {
            level,
            file,
            module,
            line,
            name,
            extra_info,
            start_time,
            finished: false,
            history: Seq::empty(),
        }
    }

    /// The record that this timer produces for `target`. It carries the
    /// timer's level and the place where the timer was opened.
    pub open spec fn record(self, target: TimerTarget, elapsed: Option<Duration>, args: Option<Seq<char>>) -> Emitted {
        Emitted {
            level: self.level,
            target,
            file: self.file,
            module: self.module,
            line: self.line,
            message: message_text(self.name, elapsed_text(elapsed), self.extra_info, args),
        }
    }

    /// The timer after it has handed `record` to the logger.
    pub open spec fn logged(self, record: Emitted) -> TimerView {
        TimerView { history: self.history.push(record), ..self }
    }

    /// The timer after the announcement of its start, which is logged only
    /// where the level is enabled at that moment.
    pub open spec fn announced(self, enabled: bool) -> TimerView {
        if enabled {
            self.logged(self.record(TimerTarget::Starting, None, None))
        } else {
            self
        }
    }

    /// The timer after a request for a progress record. `reading` is the
    /// elapsed time read for it, or `None` where the level is disabled at
    /// that moment. A finished timer ignores the request.
    pub open spec fn executed(self, reading: Option<Duration>, args: Option<Seq<char>>) -> TimerView {
        if !self.finished && reading is Some {
            self.logged(self.record(TimerTarget::Executing, reading, args))
        } else {
            self
        }
    }

    /// The timer after a request to finish. The first request marks the
    /// timer as finished, and logs the final record where the level is
    /// enabled at that moment; every later one is ignored.
    pub open spec fn completed(self, reading: Option<Duration>, args: Option<Seq<char>>) -> TimerView {
        if self.finished {
            self
        } else if reading is Some {
            TimerView { finished: true, ..self }.logged(self.record(TimerTarget::Finished, reading, args))
        } else {
            TimerView { finished: true, ..self }
        }
    }

    /// The timer after one request.
    pub open spec fn handle(self, request: Request) -> TimerView {
        match request {
            Request::Executing { reading, args } => self.executed(reading, args),
            Request::Finish { reading, args } => self.completed(reading, args),
        }
    }

    /// The timer after a series of requests, made in order.
    pub open spec fn handle_all(self, requests: Seq<Request>) -> TimerView
        decreases requests.len(),
    {
        if requests.len() == 0 {
            self
        } else {
            self.handle(requests[0]).handle_all(requests.drop_first())
        }
    }

    /// The timer with another level.
    pub open spec fn with_level(self, level: Level) -> TimerView {
        TimerView { level, ..self }
    }

    /// Whether `record` carries the place where this timer was opened and
    /// a message that starts with the timer's name.
    pub open spec fn owns(self, record: Emitted) -> bool {
        &&& record.file == self.file
        &&& record.module == self.module
        &&& record.line == self.line
        &&& self.name.is_prefix_of(record.message)
    }

    /// The shape that the records of a timer keep at all times: a starting
    /// record can only come first, a finished record can only come last and
    /// only on a timer that is marked as finished, and every record carries
    /// the timer's name and the place where the timer was opened.
    pub open spec fn wf(self) -> bool {
        &&& forall|i: int|
            0 <= i < self.history.len() && #[trigger] self.history[i].target == TimerTarget::Starting ==> i == 0
        &&& forall|i: int|
            0 <= i < self.history.len() && #[trigger] self.history[i].target == TimerTarget::Finished
                ==> self.finished && i == self.history.len() - 1
        &&& forall|i: int| 0 <= i < self.history.len() ==> self.owns(#[trigger] self.history[i])
    }
}

/// The records that a timer may have logged by the end of a scope which
/// opens it, makes no request of it and finishes it without arguments: none
/// where the level was disabled all along, else those of a timer that was
/// opened, announced only where `announce` asks for it, and finished once.
pub open spec fn scope_records(
    announce: bool,
    file: Seq<char>,
    module: Seq<char>,
    line: u32,
    name: Seq<char>,
    extra_info: Option<Seq<char>>,
    level: Level,
    records: Seq<Emitted>,
) -> bool {
    records.len() == 0 || exists|start_time: Instant, announced: bool, end: Option<Instant>|
        (announced ==> announce) && records == (#[trigger] TimerView::opened(
            start_time,
            file,
            module,
            line,
            name,
            extra_info,
            level,
        ).announced(announced).completed(reading_at(end, start_time), None)).history
}

/// A timer logs a message stating its name and how long it has been
/// running when it is finished. It can be used to time functions or other
/// critical areas.
///
/// A timer does not finish by itself. Every path on which its scope ends
/// has to call `finish`, or the scope is handed to `scope` as a closure,
/// which finishes the timer when the closure returns. A timer that is let
/// go without either logs no final message.
pub struct LoggingTimer<'name> {
    /// The level at which the timer logs.
    level: Level,
    /// The file in which the timer was opened.
    file: &'static str,
    /// The module in which the timer was opened.
    module: &'static str,
    /// The line at which the timer was opened.
    line: u32,
    /// Set by the first request to finish; suppresses every later one.
    finished: bool,
    /// The instant at which the timer was opened.
    start_time: Instant,
    /// The name of the timer, which starts every message.
    name: &'name str,
    /// Further text to be logged along with the name.
    extra_info: Option<String>,
    /// The records handed to the logger so far.
    history: Ghost<Seq<Emitted>>,
}

impl<'name> View for LoggingTimer<'name> {
    type V = TimerView;

    closed spec fn view(&self) -> TimerView {
        TimerView {
            level: self.level,
            file: self.file@,
            module: self.module@,
            line: self.line,
            name: self.name@,
            extra_info: self.extra_info.deep_view(),
            start_time: self.start_time,
            finished: self.finished,
            history: self.history@,
        }
    }
}

impl<'name> LoggingTimer<'name> {
    #[verifier::type_invariant]
    spec fn well_formed(self) -> bool {
        self@.wf()
    }

    /// What opening a timer does once the logger and the clock have been
    /// asked. `gate` is the instant at which the timer starts, or `None`
    /// where the level is disabled: then there is no timer. `announce` says
    /// whether the start is logged.
    pub fn open_at(
        gate: Option<Instant>,
        announce: bool,
        file: &'static str,
        module: &'static str,
        line: u32,
        name: &'name str,
        extra_info: Option<String>,
        level: Level,
    ) -> (r: Option<Self>)
        ensures
            gate is None ==> r is None,
            gate matches Some(start_time) ==> r is Some && r->0@ == TimerView::opened(
                start_time,
                file@,
                module@,
                line,
                name@,
                extra_info.deep_view(),
                level,
            ).announced(announce) && r->0@.wf(),
    {
        match gate {
            Some(start_time) => {
                let mut timer = LoggingTimer {
                    level,
                    file,
                    module,
                    line,
                    finished: false,
                    start_time,
                    name,
                    extra_info,
                    history: Ghost(Seq::empty()),
                };
                timer.log_impl(TimerTarget::Starting, announce, None, None);
                Some(timer)
            },
            None => None,
        }
    }

    /// Opens a timer that logs only a finished message. Where the level is
    /// disabled there is no timer.
    pub fn new(
        file: &'static str,
        module: &'static str,
        line: u32,
        name: &'name str,
        extra_info: Option<String>,
        level: Level,
    ) -> (r: Option<Self>)
        ensures
            r matches Some(timer) ==> timer@ == TimerView::opened(
                timer@.start_time,
                file@,
                module@,
                line,
                name@,
                extra_info.deep_view(),
                level,
            ) && timer@.wf(),
    {
        let gate = if is_enabled(level) {
            Some(clock_now())
        } else {
            None
        };
        Self::open_at(gate, false, file, module, line, name, extra_info, level)
    }

    /// Opens a timer that logs a starting message at once and a finished
    /// message later. Where the level is disabled there is no timer; where
    /// it is disabled by the time the timer has started, the starting
    /// message is left out.
    pub fn with_start_message(
        file: &'static str,
        module: &'static str,
        line: u32,
        name: &'name str,
        extra_info: Option<String>,
        level: Level,
    ) -> (r: Option<Self>)
        ensures
            r matches Some(timer) ==> timer@.wf() && exists|announced: bool|
                timer@ == (#[trigger] TimerView::opened(
                    timer@.start_time,
                    file@,
                    module@,
                    line,
                    name@,
                    extra_info.deep_view(),
                    level,
                ).announced(announced)),
    {
        let gate = if is_enabled(level) {
            Some(clock_now())
        } else {
            None
        };
        let announce = gate.is_some() && is_enabled(level);
        Self::open_at(gate, announce, file, module, line, name, extra_info, level)
    }

    /// Times one call of `body`: opens a timer, with a starting message
    /// where `announce` is set, calls `body`, finishes the timer without
    /// arguments and hands back what `body` returned, together with the
    /// records that the timer has logged.
    pub fn scope<R, F: FnOnce() -> R>(
        announce: bool,
        file: &'static str,
        module: &'static str,
        line: u32,
        name: &'name str,
        extra_info: Option<String>,
        level: Level,
        body: F,
    ) -> (r: (R, Ghost<Seq<Emitted>>))
        requires
            body.requires(()),
        ensures
            body.ensures((), r.0),
            scope_records(announce, file@, module@, line, name@, extra_info.deep_view(), level, r.1@),
    {
        let timer = if announce {
            Self::with_start_message(file, module, line, name, extra_info, level)
        } else {
            Self::new(file, module, line, name, extra_info, level)
        };
        let value = body();
        match timer {
            Some(timer) => {
                let mut timer = timer;
                let ghost opened = timer@;
                timer.finish(None);
                proof {
                    let fresh = TimerView::opened(
                        opened.start_time,
                        file@,
                        module@,
                        line,
                        name@,
                        extra_info.deep_view(),
                        level,
                    );
                    assert(fresh.announced(false) == fresh);
                    let announced = opened != fresh;
                    assert(opened == fresh.announced(announced));
                    if timer@ == opened.completed(None, None) {
                        assert(timer@ == fresh.announced(announced).completed(
                            reading_at(None, opened.start_time),
                            None,
                        ));
                    } else {
                        let now = choose|now: Instant|
                            timer@ == opened.completed(Some(#[trigger] span(now, opened.start_time)), None);
                        assert(timer@ == fresh.announced(announced).completed(
                            reading_at(Some(now), opened.start_time),
                            None,
                        ));
                    }
                }
                (value, Ghost(timer@.history))
            },
            None => (value, Ghost(Seq::empty())),
        }
    }

    /// How long the timer had been running at the instant `now`.
    pub fn elapsed_at(&self, now: Instant) -> (d: Duration)
        ensures
            d == span(now, self@.start_time),
    {
        clock_between(&now, &self.start_time)
    }

    /// How long the timer has been running: the time from its start to the
    /// instant of this call.
    pub fn elapsed(&self) -> (d: Duration)
        ensures
            exists|now: Instant| d == #[trigger] span(now, self@.start_time),
    {
        let now = clock_now();
        self.elapsed_at(now)
    }

    /// Asks the logger once more before a message is built, whatever the
    /// caller has found out, and lets the reading go where the level is
    /// disabled by now.
    fn ask_again(&self, reading: Option<Duration>) -> (r: Option<Duration>)
        ensures
            r == reading || r is None,
    {
        match reading {
            Some(d) => if is_enabled(self.level) {
                Some(d)
            } else {
                None
            },
            None => None,
        }
    }

    /// Whether a request made now would log a record: the timer is not
    /// finished and its level is enabled at this moment. Callers use it to
    /// spare themselves the making of a message that nobody would see.
    pub fn would_log(&self) -> (r: bool)
        ensures
            self@.finished ==> !r,
    {
        !self.finished && is_enabled(self.level)
    }

    /// Sets the level at which the timer logs from now on.
    pub fn level(self, level: Level) -> (timer: Self)
        ensures
            timer@ == self@.with_level(level),
            timer@.wf(),
    {
        let mut timer = self;
        proof {
            use_type_invariant(&timer);
        }
        timer.level = level;
        timer
    }

    /// Logs a message that shows the elapsed time so far, but does not stop
    /// the timer. It can be called many times; on a finished timer, or
    /// while the level is disabled, it does nothing.
    pub fn executing(&mut self, args: Option<&str>)
        ensures
            final(self)@ == old(self)@ || exists|now: Instant|
                final(self)@ == old(self)@.executed(
                    Some(#[trigger] span(now, old(self)@.start_time)),
                    args.deep_view(),
                ),
            final(self)@.wf(),
    {
        let reading = if self.would_log() {
            Some(self.elapsed())
        } else {
            None
        };
        let reading = self.ask_again(reading);
        self.executing_at(reading, args);
    }

    /// Logs the final message with the elapsed time. Only the first call
    /// has an effect; while the level is disabled that effect is to mark
    /// the timer as finished, and nothing is logged.
    pub fn finish(&mut self, args: Option<&str>)
        ensures
            final(self)@ == old(self)@.completed(None, args.deep_view()) || exists|now: Instant|
                final(self)@ == old(self)@.completed(
                    Some(#[trigger] span(now, old(self)@.start_time)),
                    args.deep_view(),
                ),
            final(self)@.wf(),
            final(self)@.finished,
    {
        let reading = if self.would_log() {
            Some(self.elapsed())
        } else {
            None
        };
        let reading = self.ask_again(reading);
        self.finish_at(reading, args);
    }

    /// What `executing` does once the logger and the clock have been
    /// asked: `reading` is the elapsed time, or `None` where the level is
    /// disabled.
    pub fn executing_at(&mut self, reading: Option<Duration>, args: Option<&str>)
        ensures
            final(self)@ == old(self)@.executed(reading, args.deep_view()),
            final(self)@.wf(),
    {
        proof {
            use_type_invariant(&*self);
        }
        if !self.finished {
            self.log_impl(TimerTarget::Executing, reading.is_some(), reading, args);
        }
    }

    /// What `finish` does once the logger and the clock have been asked:
    /// `reading` is the elapsed time, or `None` where the level is disabled.
    pub fn finish_at(&mut self, reading: Option<Duration>, args: Option<&str>)
        ensures
            final(self)@ == old(self)@.completed(reading, args.deep_view()),
            final(self)@.wf(),
            final(self)@.finished,
    {
        proof {
            use_type_invariant(&*self);
        }
        if !self.finished {
            self.finished = true;
            self.log_impl(TimerTarget::Finished, reading.is_some(), reading, args);
        }
    }

    /// Whether a record for `target` may come next: a starting record only
    /// first, a progress record only before the timer is finished, a
    /// finished record only once the timer is marked and has none yet.
    spec fn admits(self, target: TimerTarget) -> bool {
        match target {
            TimerTarget::Starting => self.history@.len() == 0,
            TimerTarget::Executing => !self.finished,
            TimerTarget::Finished => self.finished && forall|i: int|
                0 <= i < self.history@.len() ==> (#[trigger] self.history@[i]).target != TimerTarget::Finished,
        }
    }

    /// Logs the record for `target`, with `elapsed` as the time it reports,
    /// where `enabled` says that the level is enabled. Where it says that
    /// the level is disabled, this returns at once: no message is built
    /// and nothing reaches the logger.
    fn log_impl(&mut self, target: TimerTarget, enabled: bool, elapsed: Option<Duration>, args: Option<&str>)
        requires
            old(self).admits(target),
        ensures
            final(self)@ == if enabled {
                old(self)@.logged(old(self)@.record(target, elapsed, args.deep_view()))
            } else {
                old(self)@
            },
    {
        if !enabled {
            return ;
        }
        let info = match &self.extra_info {
            Some(s) => Some(s.as_str()),
            None => None,
        };
        let message = match elapsed {
            Some(d) => {
                let text = duration_debug(&d);
                render(self.name, Some(text.as_str()), info, args)
            },
            None => render(self.name, None, info, args),
        };
        proof {
            crate::message::message_starts_with_name(
                self.name@,
                elapsed_text(elapsed),
                self.extra_info.deep_view(),
                args.deep_view(),
            );
        }
        self.log_record(target, message.as_str());
    }

    /// Hands one record to the logger.
    fn log_record(&mut self, target: TimerTarget, message: &str)
        requires
            old(self).admits(target),
            old(self)@.name.is_prefix_of(message@),
        ensures
            final(self)@ == old(self)@.logged(
                (Emitted {
                    level: old(self)@.level,
                    target,
                    file: old(self)@.file,
                    module: old(self)@.module,
                    line: old(self)@.line,
                    message: message@,
                }),
            ),
    {
        proof {
            use_type_invariant(&*self);
        }
        emit(
            Header { level: self.level, target: target.as_str(), file: self.file, module: self.module, line: self.line },
            message,
        );
        let ghost record = Emitted {
            level: self.level,
            target,
            file: self.file@,
            module: self.module@,
            line: self.line,
            message: message@,
        };
        self.history = Ghost(self.history@.push(record));
    }
}

} // verus!
