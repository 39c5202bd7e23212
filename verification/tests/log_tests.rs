use std::sync::Mutex;

use george_template::log::level::LogLevel;
use george_template::log::logger::{Logger, LoggerExt, NoopLogger};
use george_template::log::record::LogRecord;
use george_template::logging::fields::format_fields;

#[derive(Default)]
struct CollectLogger {
    records: Mutex<Vec<LogRecord>>,
}

impl Logger for CollectLogger {
    fn log(&self, record: &LogRecord) {
        self.records
            .lock()
            .expect("records mutex poisoned")
            .push(record.clone());
    }
}

struct QuietLogger {
    records: Mutex<Vec<LogRecord>>,
}

impl Logger for QuietLogger {
    fn enabled(&self, level: LogLevel, _target: &str) -> bool {
        level <= LogLevel::Warn
    }

    fn log(&self, record: &LogRecord) {
        self.records.lock().unwrap().push(record.clone());
    }
}

#[test]
fn info_and_error_helpers_emit_records() {
    let logger = CollectLogger::default();

    logger.info("demo", "started");
    logger.error("demo", String::from("failed"));

    let records = logger.records.lock().expect("records mutex poisoned");
    assert_eq!(records.len(), 2);
    assert_eq!(records[0].level, LogLevel::Info);
    assert_eq!(records[0].target, "demo");
    assert_eq!(records[0].message, "started");
    assert_eq!(records[1].level, LogLevel::Error);
    assert_eq!(records[1].message, "failed");
}

#[test]
fn noop_logger_is_enabled_and_does_not_panic() {
    let logger = NoopLogger;
    let record = LogRecord::new(LogLevel::Info, "demo", "message");

    assert!(logger.enabled(LogLevel::Info, "demo"));
    logger.log(&record);
    logger.flush();
}

#[test]
fn new_initializes_expected_defaults() {
    let record = LogRecord::new(LogLevel::Info, "demo", "started");

    assert_eq!(record.level, LogLevel::Info);
    assert_eq!(record.target, "demo");
    assert_eq!(record.message, "started");
    assert_eq!(record.module, None);
    assert_eq!(record.file, None);
    assert_eq!(record.line, None);
    assert!(record.fields.is_empty());
}

#[test]
fn with_field_appends_fields_in_order() {
    let record = LogRecord::new(LogLevel::Warn, "demo", "warning")
        .with_field("attempt", 1)
        .with_field("user", "alice");

    assert_eq!(record.fields.len(), 2);
    assert_eq!(record.fields[0].key, "attempt");
    assert_eq!(record.fields[0].value, "1");
    assert_eq!(record.fields[1].key, "user");
    assert_eq!(record.fields[1].value, "alice");
}

#[test]
fn emit_skips_records_the_logger_rejects() {
    let logger = QuietLogger { records: Mutex::new(Vec::new()) };

    logger.debug("demo", "noise");
    logger.trace("demo", "more noise");
    logger.info("demo", "still noise");
    logger.warn("demo", "careful");

    let records = logger.records.lock().unwrap();
    assert_eq!(records.len(), 1);
    assert_eq!(records[0].level, LogLevel::Warn);
    assert_eq!(records[0].message, "careful");
}

#[test]
fn field_values_render_like_to_string() {
    let record = LogRecord::new(LogLevel::Info, "demo", 42u64)
        .with_field("neg", -17i64)
        .with_field("min", i64::MIN)
        .with_field("zero", 0u8)
        .with_field("flag", true)
        .with_field("big", u64::MAX);

    assert_eq!(record.message, "42");
    assert_eq!(record.fields[0].value, "-17");
    assert_eq!(record.fields[1].value, i64::MIN.to_string());
    assert_eq!(record.fields[2].value, "0");
    assert_eq!(record.fields[3].value, "true");
    assert_eq!(record.fields[4].value, u64::MAX.to_string());
}

#[test]
fn format_fields_joins_key_value_pairs() {
    let empty = LogRecord::new(LogLevel::Info, "demo", "started");
    assert_eq!(format_fields(&empty), "");

    let one = LogRecord::new(LogLevel::Info, "demo", "started").with_field("attempt", 1);
    assert_eq!(format_fields(&one), "attempt=1");

    let two = one.with_field("user", "alice");
    assert_eq!(format_fields(&two), "attempt=1, user=alice");
}
