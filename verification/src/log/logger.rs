use vstd::prelude::*;

use crate::log::level::LogLevel;
use crate::log::record::{is_fresh_record, LogRecord};
use crate::text::TextValue;

verus! {

/// The logging protocol, implemented by each concrete logger.
pub trait Logger: Send + Sync + 'static {
    /// Whether a record of this level and target should be emitted. By
    /// default every record is.
    fn enabled(&self, level: LogLevel, target: &str) -> (b: bool)
        default_ensures
            b,
    {
        true
    }

    /// Emits one record.
    fn log(&self, record: &LogRecord);

    /// Flushes buffered output. By default there is nothing to flush.
    fn flush(&self) {
    }
}

/// What `emit` did with `logger`: it asked `enabled(level, target)`, and
/// when the answer was `true` it handed `log` a fresh record (no location, no
/// fields) of exactly this level, target and message text.
pub open spec fn emitted<L: Logger + ?Sized>(
    logger: &L,
    level: LogLevel,
    target: &'static str,
    text: Seq<char>,
) -> bool {
    exists|accepted: bool|
        #[trigger] call_ensures(L::enabled, (logger, level, target), accepted) && (accepted
            ==> exists|record: LogRecord|
            #[trigger] call_ensures(L::log, (logger, &record), ()) && is_fresh_record(
                record,
                level,
                target,
                text,
            ))
}

/// A logger that accepts every record of `level` and `target` (such as the
/// default `enabled`, or `NoopLogger`) is handed, by `emit` and by the
/// shorthand of that level, exactly one kind of record: a fresh one with that
/// level, target and message text.
pub proof fn law_accepting_logger_receives_the_record<L: Logger + ?Sized>(
    logger: &L,
    level: LogLevel,
    target: &'static str,
    text: Seq<char>,
)
    requires
        emitted(logger, level, target, text),
        forall|b: bool| #[trigger] call_ensures(L::enabled, (logger, level, target), b) ==> b,
    ensures
        exists|record: LogRecord|
            #[trigger] call_ensures(L::log, (logger, &record), ()) && is_fresh_record(
                record,
                level,
                target,
                text,
            ),
{
}

/// Shorthands that build a record and emit it when the logger accepts it.
pub trait LoggerExt: Logger {
    /// Emits an error record.
    fn error(&self, target: &'static str, message: impl TextValue)
        ensures
            emitted(self, LogLevel::Error, target, message.text()),
    {
        self.emit(LogLevel::Error, target, message);
    }

    /// Emits a warn record.
    fn warn(&self, target: &'static str, message: impl TextValue)
        ensures
            emitted(self, LogLevel::Warn, target, message.text()),
    {
        self.emit(LogLevel::Warn, target, message);
    }

    /// Emits an info record.
    fn info(&self, target: &'static str, message: impl TextValue)
        ensures
            emitted(self, LogLevel::Info, target, message.text()),
    {
        self.emit(LogLevel::Info, target, message);
    }

    /// Emits a debug record.
    fn debug(&self, target: &'static str, message: impl TextValue)
        ensures
            emitted(self, LogLevel::Debug, target, message.text()),
    {
        self.emit(LogLevel::Debug, target, message);
    }

    /// Emits a trace record.
    fn trace(&self, target: &'static str, message: impl TextValue)
        ensures
            emitted(self, LogLevel::Trace, target, message.text()),
    {
        self.emit(LogLevel::Trace, target, message);
    }

    /// Builds a fresh record and logs it, when the logger is enabled for the
    /// level and target.
    fn emit(&self, level: LogLevel, target: &'static str, message: impl TextValue)
        ensures
            emitted(self, level, target, message.text()),
    {
        if self.enabled(level, target) {
            let record = LogRecord::new(level, target, message);
            self.log(&record);
        }
    }
}

impl<T: Logger + ?Sized> LoggerExt for T {}

/// A logger that discards every record.
#[derive(Debug, Default, Clone, Copy)]
pub struct NoopLogger;

impl Logger for NoopLogger {
    fn enabled(&self, _level: LogLevel, _target: &str) -> (b: bool)
        ensures
            b,
    {
        true
    }

    fn log(&self, _record: &LogRecord) {
    }

    fn flush(&self) {
    }
}

} // verus!
