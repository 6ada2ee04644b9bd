//! What holds of the records of every timer, whatever is asked of it.

use crate::message::{message_text, Emitted, TimerTarget};
use crate::timer::{
    all_disabled, count, first_finish_enabled, reading_at, scope_records, Request, TimerView,
};
use std::time::{Duration, Instant};
use vstd::prelude::*;

verus! {

/// Counting the records of one kind goes record by record.
pub proof fn count_push(history: Seq<Emitted>, record: Emitted, target: TimerTarget)
    ensures
        count(history.push(record), target) == count(history, target) + if record.target == target {
            1nat
        } else {
            0nat
        },
{
    assert(history.push(record).drop_last() =~= history);
}

/// A history without a record of some kind counts none of that kind.
pub proof fn count_absent(history: Seq<Emitted>, target: TimerTarget)
    requires
        forall|i: int| 0 <= i < history.len() ==> (#[trigger] history[i]).target != target,
    ensures
        count(history, target) == 0,
    decreases history.len(),
{
    if history.len() > 0 {
        count_absent(history.drop_last(), target);
    }
}

/// A timer that is not yet finished has logged no finished record.
pub proof fn unfinished_has_no_finished_record(timer: TimerView)
    requires
        timer.wf(),
        !timer.finished,
    ensures
        count(timer.history, TimerTarget::Finished) == 0,
{
    count_absent(timer.history, TimerTarget::Finished);
}

/// A second request to finish changes nothing: not the timer, not its
/// records.
pub proof fn finish_is_idempotent(
    timer: TimerView,
    first: Option<Duration>,
    first_args: Option<Seq<char>>,
    second: Option<Duration>,
    second_args: Option<Seq<char>>,
)
    ensures
        timer.completed(first, first_args).completed(second, second_args) == timer.completed(first, first_args),
        timer.completed(first, first_args).finished,
{
}

/// No request breaks the shape of a timer's records, and none reopens a
/// finished timer.
pub proof fn requests_keep_shape(timer: TimerView, requests: Seq<Request>)
    requires
        timer.wf(),
    ensures
        timer.handle_all(requests).wf(),
        timer.finished ==> timer.handle_all(requests).finished,
    decreases requests.len(),
{
    if requests.len() > 0 {
        let next = timer.handle(requests[0]);
        assert(next.wf());
        requests_keep_shape(next, requests.drop_first());
    }
}

/// Once a timer is finished, no request adds a record.
pub proof fn finished_timer_is_inert(timer: TimerView, requests: Seq<Request>)
    requires
        timer.finished,
    ensures
        timer.handle_all(requests) == timer,
    decreases requests.len(),
{
    if requests.len() > 0 {
        assert(timer.handle(requests[0]) == timer);
        finished_timer_is_inert(timer, requests.drop_first());
    }
}

/// A timer logs its finished record at most once, and exactly once where
/// the level was enabled at the first request to finish. Requests that come
/// after the first one to finish, and the end of the scope among them, add
/// nothing.
pub proof fn finished_exactly_once(timer: TimerView, requests: Seq<Request>)
    requires
        timer.wf(),
        !timer.finished,
    ensures
        count(timer.handle_all(requests).history, TimerTarget::Finished) == if first_finish_enabled(requests) {
            1nat
        } else {
            0nat
        },
    decreases requests.len(),
{
    if requests.len() == 0 {
        unfinished_has_no_finished_record(timer);
    } else {
        let next = timer.handle(requests[0]);
        let rest = requests.drop_first();
        match requests[0] {
            Request::Executing { reading, args } => {
                assert(next.wf());
                finished_exactly_once(next, rest);
            },
            Request::Finish { reading, args } => {
                finished_timer_is_inert(next, rest);
                unfinished_has_no_finished_record(timer);
                if reading is Some {
                    count_push(
                        timer.history,
                        timer.record(TimerTarget::Finished, reading, args),
                        TimerTarget::Finished,
                    );
                }
            },
        }
    }
}

/// A timer whose scope ends has been finished, by hand or by the end of
/// the scope, and has logged at most one finished record: exactly one where
/// the level was enabled when it was first asked to finish.
pub proof fn scope_exit_finishes_once(timer: TimerView, requests: Seq<Request>, reading: Option<Duration>)
    requires
        timer.wf(),
        !timer.finished,
    ensures
        ({
            let end = timer.handle_all(requests.push(Request::Finish { reading, args: None }));
            &&& end.finished
            &&& end == timer.handle_all(requests).completed(reading, None)
            &&& count(end.history, TimerTarget::Finished) <= 1
            &&& count(end.history, TimerTarget::Finished) == 1 <==> first_finish_enabled(
                requests.push(Request::Finish { reading, args: None }),
            )
        }),
{
    let exit = Request::Finish { reading, args: None };
    handle_all_push(timer, requests, exit);
    finished_exactly_once(timer, requests.push(exit));
}

/// The records of a scope around a call hold at most one finished record,
/// at most one starting record and that only where the scope announces its
/// start, and no progress record.
pub proof fn scope_logs_each_record_once(
    announce: bool,
    file: Seq<char>,
    module: Seq<char>,
    line: u32,
    name: Seq<char>,
    extra_info: Option<Seq<char>>,
    level: crate::level::Level,
    records: Seq<Emitted>,
)
    requires
        scope_records(announce, file, module, line, name, extra_info, level, records),
    ensures
        count(records, TimerTarget::Finished) <= 1,
        count(records, TimerTarget::Starting) <= 1,
        !announce ==> count(records, TimerTarget::Starting) == 0,
        count(records, TimerTarget::Executing) == 0,
{
    if records.len() > 0 {
        let (start_time, announced, end) = choose|
            start_time: Instant,
            announced: bool,
            end: Option<Instant>,
        |
            (announced ==> announce) && records == (#[trigger] TimerView::opened(
                start_time,
                file,
                module,
                line,
                name,
                extra_info,
                level,
            ).announced(announced).completed(reading_at(end, start_time), None)).history;
        let reading = reading_at(end, start_time);
        let opened = TimerView::opened(start_time, file, module, line, name, extra_info, level).announced(
            announced,
        );
        let exit = seq![Request::Finish { reading, args: None }];
        assert(exit.drop_first().len() == 0);
        assert(opened.handle_all(exit) == opened.handle(exit[0]).handle_all(exit.drop_first()));
        assert(opened.handle_all(exit) == opened.completed(reading, None));
        starting_only_when_opened(start_time, file, module, line, name, extra_info, level, announced, exit);
        finished_exactly_once(opened, exit);
        requests_add_no_executing(opened, exit);
        count_absent(opened.history, TimerTarget::Executing);
    }
}

/// Requests to finish add no progress record.
pub proof fn requests_add_no_executing(timer: TimerView, requests: Seq<Request>)
    requires
        forall|i: int| 0 <= i < requests.len() ==> (#[trigger] requests[i]) is Finish,
    ensures
        count(timer.handle_all(requests).history, TimerTarget::Executing) == count(
            timer.history,
            TimerTarget::Executing,
        ),
    decreases requests.len(),
{
    if requests.len() > 0 {
        let next = timer.handle(requests[0]);
        match requests[0] {
            Request::Finish { reading, args } => {
                count_push(
                    timer.history,
                    timer.record(TimerTarget::Finished, reading, args),
                    TimerTarget::Executing,
                );
            },
            Request::Executing { .. } => {},
        }
        let rest = requests.drop_first();
        assert forall|i: int| 0 <= i < rest.len() implies (#[trigger] rest[i]) is Finish by {
            assert(rest[i] == requests[i + 1]);
        }
        requests_add_no_executing(next, rest);
    }
}

/// Handling a series of requests and then one more is handling the longer
/// series.
pub proof fn handle_all_push(timer: TimerView, requests: Seq<Request>, last: Request)
    ensures
        timer.handle_all(requests.push(last)) == timer.handle_all(requests).handle(last),
    decreases requests.len(),
{
    let longer = requests.push(last);
    if requests.len() == 0 {
        assert(longer[0] == last);
        assert(longer.drop_first().len() == 0);
        assert(timer.handle_all(longer) == timer.handle(last).handle_all(longer.drop_first()));
    } else {
        assert(longer[0] == requests[0]);
        assert(longer.drop_first() =~= requests.drop_first().push(last));
        handle_all_push(timer.handle(requests[0]), requests.drop_first(), last);
        assert(timer.handle_all(longer) == timer.handle(longer[0]).handle_all(longer.drop_first()));
    }
}

/// In the records of a timer every progress record comes before the
/// finished record, and nothing comes after it.
pub proof fn executing_precedes_finished(timer: TimerView, requests: Seq<Request>)
    requires
        timer.wf(),
    ensures
        ({
            let history = timer.handle_all(requests).history;
            &&& forall|i: int, j: int|
                0 <= i < history.len() && 0 <= j < history.len() && (#[trigger] history[i]).target
                    == TimerTarget::Executing && (#[trigger] history[j]).target == TimerTarget::Finished ==> i < j
            &&& forall|j: int|
                0 <= j < history.len() && (#[trigger] history[j]).target == TimerTarget::Finished ==> j
                    == history.len() - 1
        }),
{
    requests_keep_shape(timer, requests);
}

/// Whatever is asked of a timer, each of its records carries the timer's
/// name at the start of its message and the place where the timer was
/// opened.
pub proof fn records_name_their_timer(timer: TimerView, requests: Seq<Request>)
    requires
        timer.wf(),
    ensures
        ({
            let end = timer.handle_all(requests);
            &&& end.name == timer.name
            &&& end.file == timer.file
            &&& end.module == timer.module
            &&& end.line == timer.line
            &&& forall|i: int|
                0 <= i < end.history.len() ==> {
                    &&& timer.name.is_prefix_of((#[trigger] end.history[i]).message)
                    &&& end.history[i].file == timer.file
                    &&& end.history[i].module == timer.module
                    &&& end.history[i].line == timer.line
                }
        }),
    decreases requests.len(),
{
    if requests.len() > 0 {
        let next = timer.handle(requests[0]);
        assert(next.wf());
        records_name_their_timer(next, requests.drop_first());
    }
}

/// Opening a timer logs one starting record where it is announced and none
/// where it is not, and no later request adds one.
pub proof fn starting_only_when_opened(
    start_time: Instant,
    file: Seq<char>,
    module: Seq<char>,
    line: u32,
    name: Seq<char>,
    extra_info: Option<Seq<char>>,
    level: crate::level::Level,
    announced: bool,
    requests: Seq<Request>,
)
    ensures
        ({
            let timer = TimerView::opened(start_time, file, module, line, name, extra_info, level).announced(
                announced,
            );
            &&& timer.wf()
            &&& !timer.finished
            &&& timer.history.len() == if announced {
                1nat
            } else {
                0nat
            }
            &&& announced ==> timer.history[0].target == TimerTarget::Starting
            &&& count(timer.handle_all(requests).history, TimerTarget::Starting) == if announced {
                1nat
            } else {
                0nat
            }
        }),
{
    let fresh = TimerView::opened(start_time, file, module, line, name, extra_info, level);
    let timer = fresh.announced(announced);
    if announced {
        count_push(fresh.history, fresh.record(TimerTarget::Starting, None, None), TimerTarget::Starting);
    }
    assert(count(fresh.history, TimerTarget::Starting) == 0);
    requests_add_no_starting(timer, requests);
}

/// No request adds a starting record.
pub proof fn requests_add_no_starting(timer: TimerView, requests: Seq<Request>)
    ensures
        count(timer.handle_all(requests).history, TimerTarget::Starting) == count(
            timer.history,
            TimerTarget::Starting,
        ),
    decreases requests.len(),
{
    if requests.len() > 0 {
        let next = timer.handle(requests[0]);
        match requests[0] {
            Request::Executing { reading, args } => {
                count_push(
                    timer.history,
                    timer.record(TimerTarget::Executing, reading, args),
                    TimerTarget::Starting,
                );
            },
            Request::Finish { reading, args } => {
                count_push(
                    timer.history,
                    timer.record(TimerTarget::Finished, reading, args),
                    TimerTarget::Starting,
                );
            },
        }
        requests_add_no_starting(next, requests.drop_first());
    }
}

/// While the level is disabled a timer logs nothing: no announcement, no
/// progress record, no finished record.
pub proof fn disabled_logs_nothing(timer: TimerView, requests: Seq<Request>)
    requires
        all_disabled(requests),
    ensures
        timer.announced(false) == timer,
        timer.handle_all(requests).history == timer.history,
    decreases requests.len(),
{
    if requests.len() > 0 {
        let rest = requests.drop_first();
        assert(requests[0] == requests[0]);
        assert forall|i: int| 0 <= i < rest.len() implies match #[trigger] rest[i] {
            Request::Finish { reading, .. } => reading is None,
            Request::Executing { reading, .. } => reading is None,
        } by {
            assert(rest[i] == requests[i + 1]);
        }
        disabled_logs_nothing(timer.handle(requests[0]), rest);
    }
}

/// A message names the timer first, then the elapsed time, then the extra
/// information, then the arguments. The last two are each left out where
/// they are absent, whatever the other is.
pub proof fn message_field_order(name: Seq<char>, elapsed: Seq<char>, info: Seq<char>, args: Seq<char>)
    ensures
        message_text(name, Some(elapsed), Some(info), Some(args)) == name + ", Elapsed="@ + elapsed + ", "@ + info
            + ", "@ + args,
        message_text(name, Some(elapsed), Some(info), None) == name + ", Elapsed="@ + elapsed + ", "@ + info,
        message_text(name, Some(elapsed), None, Some(args)) == name + ", Elapsed="@ + elapsed + ", "@ + args,
        message_text(name, Some(elapsed), None, None) == name + ", Elapsed="@ + elapsed,
        message_text(name, None, Some(info), Some(args)) == name + ", "@ + info + ", "@ + args,
        message_text(name, None, Some(info), None) == name + ", "@ + info,
        message_text(name, None, None, Some(args)) == name + ", "@ + args,
        message_text(name, None, None, None) == name,
{
    let e = ", Elapsed="@;
    let c = ", "@;
    assert(message_text(name, Some(elapsed), Some(info), Some(args)) =~= name + e + elapsed + c + info + c + args);
    assert(message_text(name, Some(elapsed), Some(info), None) =~= name + e + elapsed + c + info);
    assert(message_text(name, Some(elapsed), None, Some(args)) =~= name + e + elapsed + c + args);
    assert(message_text(name, Some(elapsed), None, None) =~= name + e + elapsed);
    assert(message_text(name, None, Some(info), Some(args)) =~= name + c + info + c + args);
    assert(message_text(name, None, Some(info), None) =~= name + c + info);
    assert(message_text(name, None, None, Some(args)) =~= name + c + args);
    assert(message_text(name, None, None, None) =~= name);
}

} // verus!
