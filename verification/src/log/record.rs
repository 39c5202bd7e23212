use vstd::prelude::*;

use crate::log::field::LogField;
use crate::log::level::LogLevel;
use crate::text::TextValue;

verus! {

/// One log record passed through the logging protocol.
#[derive(Debug, Clone, PartialEq, Eq)]
pub struct LogRecord {
    pub level: LogLevel,
    pub target: &'static str,
    pub message: String,
    pub module: Option<&'static str>,
    pub file: Option<&'static str>,
    pub line: Option<u32>,
    pub fields: Vec<LogField>,
}

/// A record as `LogRecord::new` builds it: no source location, no fields.
pub open spec fn is_fresh_record(
    r: LogRecord,
    level: LogLevel,
    target: &'static str,
    message: Seq<char>,
) -> bool {
    &&& r.level == level
    &&& r.target == target
    &&& r.message@ == message
    &&& r.module is None
    &&& r.file is None
    &&& r.line is None
    &&& r.fields@.len() == 0
}

impl LogRecord {
    /// A record with the given level, target and message text, without
    /// source location and without fields.
    pub fn new(level: LogLevel, target: &'static str, message: impl TextValue) -> (r: LogRecord)
        ensures
            is_fresh_record(r, level, target, message.text()),
    {
        LogRecord {
            level,
            target,
            message: message.render(),
            module: None,
            file: None,
            line: None,
            fields: Vec::new(),
        }
    }

    /// Appends one structured field after those already present.
    pub fn with_field(self, key: &'static str, value: impl TextValue) -> (r: LogRecord)
        ensures
            r.level == self.level,
            r.target == self.target,
            r.message == self.message,
            r.module == self.module,
            r.file == self.file,
            r.line == self.line,
            r.fields@.len() == self.fields@.len() + 1,
            forall|i: int| 0 <= i < self.fields@.len() ==> r.fields@[i] == self.fields@[i],
            r.fields@.last().key == key,
            r.fields@.last().value@ == value.text(),
    {
        let mut r = self;
        r.fields.push(LogField::new(key, value));
        r
    }
}

} // verus!
