use logging_timer::{Level, LoggingTimer};
use std::sync::atomic::{AtomicUsize, Ordering};
use std::sync::Mutex;

/// A logger that accepts a record only while it has been asked fewer times
/// than its budget allows.
struct Budget {
    left: AtomicUsize,
    messages: Mutex<Vec<String>>,
}

impl log::Log for Budget {
    fn enabled(&self, _metadata: &log::Metadata) -> bool {
        let left = self.left.load(Ordering::SeqCst);
        if left == 0 {
            false
        } else {
            self.left.store(left - 1, Ordering::SeqCst);
            true
        }
    }

    fn log(&self, record: &log::Record) {
        self.messages.lock().unwrap().push(format!("{}", record.args()));
    }

    fn flush(&self) {}
}

static LOGGER: Budget = Budget { left: AtomicUsize::new(0), messages: Mutex::new(Vec::new()) };

#[test]
fn level_disabled_after_the_reading_logs_nothing() {
    let _ = log::set_logger(&LOGGER);
    log::set_max_level(log::LevelFilter::Trace);

    // One answer for opening, one for the reading, none for the last question.
    LOGGER.left.store(2, Ordering::SeqCst);
    let mut tmr = LoggingTimer::new("a.rs", "a", 1, "GATED_LATE", None, Level::Info).unwrap();
    tmr.finish(Some("unseen"));
    assert_eq!(LOGGER.messages.lock().unwrap().len(), 0);
    assert!(!tmr.would_log());

    // The timer is finished all the same: a later request adds nothing.
    LOGGER.left.store(10, Ordering::SeqCst);
    tmr.finish(None);
    tmr.executing(None);
    assert_eq!(LOGGER.messages.lock().unwrap().len(), 0);

    // With an answer for the last question too, the record is logged.
    LOGGER.left.store(3, Ordering::SeqCst);
    let mut tmr = LoggingTimer::new("a.rs", "a", 1, "GATED_OPEN", None, Level::Info).unwrap();
    tmr.finish(None);
    let messages = LOGGER.messages.lock().unwrap();
    assert_eq!(messages.len(), 1);
    assert!(messages[0].starts_with("GATED_OPEN, Elapsed="));
}
