use logging_timer::{is_enabled, Level, LoggingTimer};
use std::sync::Mutex;
use std::time::{Duration, Instant};

struct Captured {
    level: log::Level,
    target: String,
    file: Option<String>,
    module: Option<String>,
    line: Option<u32>,
    message: String,
}

struct Capture {
    records: Mutex<Vec<Captured>>,
}

impl log::Log for Capture {
    fn enabled(&self, metadata: &log::Metadata) -> bool {
        metadata.level() <= log::Level::Debug
    }

    fn log(&self, record: &log::Record) {
        if self.enabled(record.metadata()) {
            self.records.lock().unwrap().push(Captured {
                level: record.level(),
                target: record.target().to_string(),
                file: record.file().map(|s| s.to_string()),
                module: record.module_path_static().map(|s| s.to_string()),
                line: record.line(),
                message: format!("{}", record.args()),
            });
        }
    }

    fn flush(&self) {}
}

static CAPTURE: Capture = Capture { records: Mutex::new(Vec::new()) };

/// Installs the capturing logger, which accepts every level but `Trace`.
fn install() {
    let _ = log::set_logger(&CAPTURE);
    log::set_max_level(log::LevelFilter::Trace);
}

/// The records of the timer called `name`: level, target, line, message.
fn records_of(name: &str) -> Vec<(log::Level, String, Option<u32>, String)> {
    let all = CAPTURE.records.lock().unwrap();
    let mut out = Vec::new();
    let with_comma = format!("{},", name);
    for r in all.iter() {
        if r.message == name || r.message.starts_with(&with_comma) {
            out.push((r.level, r.target.clone(), r.line, r.message.clone()));
        }
    }
    out
}

fn targets_of(name: &str) -> Vec<String> {
    records_of(name).into_iter().map(|r| r.1).collect()
}

#[test]
fn scope_logs_one_finished_record() {
    install();
    let (value, _) = LoggingTimer::scope(false, "src/io.rs", "app::io", 67, "SCOPE_ONLY", None, Level::Debug, || {
        assert_eq!(records_of("SCOPE_ONLY").len(), 0);
        17
    });
    assert_eq!(value, 17);
    let seen = records_of("SCOPE_ONLY");
    assert_eq!(seen.len(), 1);
    assert_eq!(seen[0].0, log::Level::Debug);
    assert_eq!(seen[0].1, "TimerFinished");
    assert_eq!(seen[0].2, Some(67));
    assert!(seen[0].3.starts_with("SCOPE_ONLY, Elapsed="));
}

#[test]
fn announced_scope_logs_at_both_ends() {
    install();
    let (value, _) = LoggingTimer::scope(
        true,
        "a.rs",
        "a",
        5,
        "SCOPE_BOTH",
        Some("info".to_string()),
        Level::Info,
        || {
            assert_eq!(targets_of("SCOPE_BOTH"), vec!["TimerStarting"]);
            "done"
        },
    );
    assert_eq!(value, "done");
    let seen = records_of("SCOPE_BOTH");
    assert_eq!(seen.len(), 2);
    assert_eq!(seen[0].1, "TimerStarting");
    assert_eq!(seen[0].3, "SCOPE_BOTH, info");
    assert_eq!(seen[1].1, "TimerFinished");
    assert!(seen[1].3.starts_with("SCOPE_BOTH, Elapsed="));
    assert!(seen[1].3.ends_with(", info"));
}

#[test]
fn scope_at_a_disabled_level_runs_the_body_and_logs_nothing() {
    install();
    let (value, _) = LoggingTimer::scope(true, "a.rs", "a", 5, "SCOPE_QUIET", None, Level::Trace, || 3 + 4);
    assert_eq!(value, 7);
    assert_eq!(records_of("SCOPE_QUIET").len(), 0);
}

#[test]
fn would_log_follows_the_level_and_the_flag() {
    install();
    let mut tmr = LoggingTimer::new("a.rs", "a", 1, "WOULD_LOG", None, Level::Debug).unwrap();
    assert!(tmr.would_log());
    tmr.finish(None);
    assert!(!tmr.would_log());
    let quiet = LoggingTimer::new("a.rs", "a", 1, "WOULD_NOT_LOG", None, Level::Debug).unwrap().level(Level::Trace);
    assert!(!quiet.would_log());
    assert_eq!(records_of("WOULD_NOT_LOG").len(), 0);
}

#[test]
fn finish_suppresses_the_record_of_the_scope_end() {
    install();
    {
        let mut tmr = LoggingTimer::new("a.rs", "a", 1, "FINISH_THEN_END", None, Level::Info).unwrap();
        tmr.finish(Some("done"));
        assert_eq!(targets_of("FINISH_THEN_END"), vec!["TimerFinished"]);
        tmr.finish(None);
    }
    let seen = records_of("FINISH_THEN_END");
    assert_eq!(seen.len(), 1);
    assert!(seen[0].3.ends_with(", done"));
}

#[test]
fn second_finish_is_a_no_op() {
    install();
    {
        let mut tmr = LoggingTimer::new("a.rs", "a", 1, "FINISH_TWICE", None, Level::Info).unwrap();
        tmr.finish(Some("first"));
        tmr.finish(Some("second"));
        tmr.finish(None);
    }
    let seen = records_of("FINISH_TWICE");
    assert_eq!(seen.len(), 1);
    assert!(seen[0].3.ends_with(", first"));
}

#[test]
fn executing_records_come_before_the_finished_record() {
    install();
    {
        let mut tmr = LoggingTimer::new("a.rs", "a", 1, "ORDERED", None, Level::Warn).unwrap();
        tmr.executing(Some("one"));
        tmr.executing(None);
        tmr.executing(Some("three"));
        tmr.finish(None);
    }
    assert_eq!(
        targets_of("ORDERED"),
        vec!["TimerExecuting", "TimerExecuting", "TimerExecuting", "TimerFinished"]
    );
}

#[test]
fn executing_after_finish_logs_nothing() {
    install();
    {
        let mut tmr = LoggingTimer::new("a.rs", "a", 1, "LATE", None, Level::Warn).unwrap();
        tmr.executing(Some("early"));
        tmr.finish(None);
        tmr.executing(Some("late"));
        tmr.executing_at(Some(Duration::from_secs(1)), Some("later"));
    }
    assert_eq!(targets_of("LATE"), vec!["TimerExecuting", "TimerFinished"]);
}

#[test]
fn with_start_message_logs_one_starting_record_at_once() {
    install();
    let tmr = LoggingTimer::with_start_message("a.rs", "a", 9, "ANNOUNCED", Some("info".to_string()), Level::Debug);
    assert!(tmr.is_some());
    let seen = records_of("ANNOUNCED");
    assert_eq!(seen.len(), 1);
    assert_eq!(seen[0].1, "TimerStarting");
    assert_eq!(seen[0].3, "ANNOUNCED, info");
    tmr.unwrap().finish(None);
    assert_eq!(targets_of("ANNOUNCED"), vec!["TimerStarting", "TimerFinished"]);
}

#[test]
fn new_logs_no_starting_record() {
    install();
    let tmr = LoggingTimer::new("a.rs", "a", 9, "SILENT", None, Level::Debug);
    assert!(tmr.is_some());
    assert_eq!(records_of("SILENT").len(), 0);
    tmr.unwrap().finish(None);
    assert_eq!(targets_of("SILENT"), vec!["TimerFinished"]);
}

#[test]
fn disabled_level_gives_no_timer_and_no_record() {
    install();
    assert!(!is_enabled(Level::Trace));
    assert!(is_enabled(Level::Debug));
    assert!(is_enabled(Level::Error));
    {
        let quiet = LoggingTimer::new("a.rs", "a", 1, "DISABLED_NEW", None, Level::Trace);
        assert!(quiet.is_none());
        let announced = LoggingTimer::with_start_message("a.rs", "a", 1, "DISABLED_START", None, Level::Trace);
        assert!(announced.is_none());
    }
    assert_eq!(records_of("DISABLED_NEW").len(), 0);
    assert_eq!(records_of("DISABLED_START").len(), 0);
}

#[test]
fn timer_whose_level_is_disabled_later_logs_nothing() {
    install();
    {
        let tmr = LoggingTimer::new("a.rs", "a", 1, "LOWERED", None, Level::Debug).unwrap();
        let mut tmr = tmr.level(Level::Trace);
        tmr.executing(Some("unseen"));
        tmr.finish(Some("unseen"));
    }
    assert_eq!(records_of("LOWERED").len(), 0);
}

#[test]
fn requests_made_while_disabled_log_nothing() {
    install();
    {
        let mut tmr = LoggingTimer::open_at(Some(Instant::now()), false, "a.rs", "a", 1, "GATED", None, Level::Debug)
            .unwrap();
        tmr.executing_at(None, Some("unseen"));
        tmr.finish_at(None, Some("unseen"));
        tmr.finish_at(Some(Duration::from_secs(2)), Some("too late"));
    }
    assert_eq!(records_of("GATED").len(), 0);
}

#[test]
fn open_at_without_a_gate_gives_no_timer() {
    install();
    let none = LoggingTimer::open_at(None, true, "a.rs", "a", 1, "NO_GATE", None, Level::Error);
    assert!(none.is_none());
    assert_eq!(records_of("NO_GATE").len(), 0);
}

#[test]
fn open_at_announces_where_asked() {
    install();
    {
        let mut tmr =
            LoggingTimer::open_at(Some(Instant::now()), true, "b.rs", "b", 4, "GATE_OPEN", None, Level::Error).unwrap();
        assert_eq!(targets_of("GATE_OPEN"), vec!["TimerStarting"]);
        tmr.finish_at(Some(Duration::new(3, 0)), None);
    }
    let seen = records_of("GATE_OPEN");
    assert_eq!(seen.len(), 2);
    assert_eq!(seen[0].3, "GATE_OPEN");
    assert_eq!(seen[1].3, "GATE_OPEN, Elapsed=3s");
}

#[test]
fn elapsed_does_not_go_back() {
    install();
    let tmr = LoggingTimer::new("a.rs", "a", 1, "CLOCK", None, Level::Debug).unwrap();
    let first = tmr.elapsed();
    let second = tmr.elapsed();
    let mut third = tmr.elapsed();
    while third < second + Duration::from_millis(2) {
        let next = tmr.elapsed();
        assert!(third <= next);
        third = next;
    }
    assert!(first <= second);
    assert!(second < third);
}

#[test]
fn finished_message_with_info_and_args() {
    install();
    {
        let mut tmr = LoggingTimer::new("a.rs", "a", 1, "N_BOTH", Some("I".to_string()), Level::Debug).unwrap();
        tmr.finish_at(Some(Duration::from_millis(1500)), Some("A"));
    }
    let seen = records_of("N_BOTH");
    assert_eq!(seen.len(), 1);
    assert_eq!(seen[0].3, "N_BOTH, Elapsed=1.5s, I, A");
}

#[test]
fn finished_message_with_info_only() {
    install();
    {
        let mut tmr = LoggingTimer::new("a.rs", "a", 1, "N_INFO", Some("I".to_string()), Level::Debug).unwrap();
        tmr.finish_at(Some(Duration::from_millis(1500)), None);
    }
    assert_eq!(records_of("N_INFO")[0].3, "N_INFO, Elapsed=1.5s, I");
}

#[test]
fn finished_message_with_args_only() {
    install();
    {
        let mut tmr = LoggingTimer::new("a.rs", "a", 1, "N_ARGS", None, Level::Debug).unwrap();
        tmr.finish_at(Some(Duration::from_millis(1500)), Some("A"));
    }
    assert_eq!(records_of("N_ARGS")[0].3, "N_ARGS, Elapsed=1.5s, A");
}

#[test]
fn finished_message_with_neither() {
    install();
    {
        let mut tmr = LoggingTimer::new("a.rs", "a", 1, "N_BARE", None, Level::Debug).unwrap();
        tmr.finish_at(Some(Duration::new(0, 28_835_275)), None);
    }
    assert_eq!(records_of("N_BARE")[0].3, "N_BARE, Elapsed=28.835275ms");
}

#[test]
fn executing_message_carries_the_elapsed_time() {
    install();
    {
        let mut tmr = LoggingTimer::new("a.rs", "a", 1, "PROGRESS", Some("I".to_string()), Level::Debug).unwrap();
        tmr.executing_at(Some(Duration::from_micros(250)), Some("A"));
        tmr.finish_at(Some(Duration::from_secs(61)), None);
    }
    let seen = records_of("PROGRESS");
    assert_eq!(seen.len(), 2);
    assert_eq!(seen[0].1, "TimerExecuting");
    assert_eq!(seen[0].3, "PROGRESS, Elapsed=250µs, I, A");
    assert_eq!(seen[1].1, "TimerFinished");
    assert_eq!(seen[1].3, "PROGRESS, Elapsed=61s, I");
}

#[test]
fn starting_message_has_no_elapsed_time() {
    install();
    {
        let _with = LoggingTimer::with_start_message("a.rs", "a", 1, "START_INFO", Some("I".to_string()), Level::Debug);
        let _without = LoggingTimer::with_start_message("a.rs", "a", 1, "START_BARE", None, Level::Debug);
        assert_eq!(records_of("START_INFO")[0].3, "START_INFO, I");
        assert_eq!(records_of("START_BARE")[0].3, "START_BARE");
    }
}

#[test]
fn find_files_scenario() {
    install();
    {
        let mut tmr = LoggingTimer::new("src/io.rs", "dnlib::io", 67, "FIND_FILES", None, Level::Debug).unwrap();
        let n = 3;
        tmr.executing(Some(&format!("found {}", n)));
        tmr.executing(Some(&format!("found {}", n)));
        // The scope ends here.
        tmr.finish(None);
    }
    let seen = records_of("FIND_FILES");
    assert_eq!(seen.len(), 3);
    assert_eq!(seen.iter().filter(|r| r.1 == "TimerStarting").count(), 0);
    assert_eq!(seen.iter().filter(|r| r.1 == "TimerExecuting").count(), 2);
    assert_eq!(seen.iter().filter(|r| r.1 == "TimerFinished").count(), 1);
    assert_eq!(seen[2].1, "TimerFinished");
    for r in seen.iter() {
        assert!(r.3.starts_with("FIND_FILES, Elapsed="));
    }
    assert!(seen[0].3.ends_with(", found 3"));
    assert!(seen[1].3.ends_with(", found 3"));
}

#[test]
fn main_scenario() {
    install();
    LoggingTimer::scope(true, "src/main.rs", "dnscan", 63, "MAIN", None, Level::Error, || ());
    let seen = records_of("MAIN");
    assert_eq!(seen.len(), 2);
    assert_eq!(seen[0].1, "TimerStarting");
    assert_eq!(seen[1].1, "TimerFinished");
    assert_eq!(seen[0].0, log::Level::Error);
    assert_eq!(seen[1].0, log::Level::Error);
    assert_eq!(seen[0].2, Some(63));
    assert_eq!(seen[1].2, Some(63));
}

#[test]
fn records_carry_the_place_where_the_timer_was_opened() {
    install();
    {
        let mut tmr =
            LoggingTimer::with_start_message("dir/file.rs", "krate::module", 4242, "PLACE", None, Level::Info).unwrap();
        tmr.executing(None);
        tmr.finish(None);
    }
    let all = CAPTURE.records.lock().unwrap();
    let mine: Vec<&Captured> = all.iter().filter(|r| r.message.starts_with("PLACE")).collect();
    assert_eq!(mine.len(), 3);
    for r in mine {
        assert_eq!(r.file.as_deref(), Some("dir/file.rs"));
        assert_eq!(r.module.as_deref(), Some("krate::module"));
        assert_eq!(r.line, Some(4242));
        assert_eq!(r.level, log::Level::Info);
    }
}

#[test]
fn each_level_reaches_the_logger_as_itself() {
    install();
    LoggingTimer::scope(false, "a.rs", "a", 1, "AT_ERROR", None, Level::Error, || ());
    LoggingTimer::scope(false, "a.rs", "a", 1, "AT_WARN", None, Level::Warn, || ());
    LoggingTimer::scope(false, "a.rs", "a", 1, "AT_INFO", None, Level::Info, || ());
    LoggingTimer::scope(false, "a.rs", "a", 1, "AT_DEBUG", None, Level::Debug, || ());
    assert_eq!(records_of("AT_ERROR")[0].0, log::Level::Error);
    assert_eq!(records_of("AT_WARN")[0].0, log::Level::Warn);
    assert_eq!(records_of("AT_INFO")[0].0, log::Level::Info);
    assert_eq!(records_of("AT_DEBUG")[0].0, log::Level::Debug);
}

#[test]
fn level_sets_the_level_of_later_records() {
    install();
    {
        let tmr = LoggingTimer::with_start_message("a.rs", "a", 1, "RELEVELLED", None, Level::Debug).unwrap();
        let mut tmr = tmr.level(Level::Warn);
        tmr.finish(None);
    }
    let seen = records_of("RELEVELLED");
    assert_eq!(seen.len(), 2);
    assert_eq!(seen[0].0, log::Level::Debug);
    assert_eq!(seen[1].0, log::Level::Warn);
}

#[test]
fn elapsed_at_is_the_time_from_the_start() {
    install();
    let start = Instant::now();
    let tmr = LoggingTimer::open_at(Some(start), false, "a.rs", "a", 1, "SPAN", None, Level::Debug).unwrap();
    assert_eq!(tmr.elapsed_at(start), Duration::ZERO);
    assert_eq!(tmr.elapsed_at(start + Duration::from_millis(1500)), Duration::from_millis(1500));
    assert_eq!(tmr.elapsed_at(start + Duration::new(61, 7)), Duration::new(61, 7));
    let later = Instant::now();
    assert!(tmr.elapsed_at(later) <= tmr.elapsed());
}

#[test]
fn elapsed_at_an_instant_before_the_start_is_zero() {
    install();
    let before = Instant::now();
    let start = before + Duration::from_secs(5);
    let tmr = LoggingTimer::open_at(Some(start), false, "a.rs", "a", 1, "SPAN_BACK", None, Level::Debug).unwrap();
    assert_eq!(tmr.elapsed_at(before), Duration::ZERO);
}
