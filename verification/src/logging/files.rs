//! Naming, recognising and expiring daily log files `<prefix>.<YYYY-MM-DD>.log`.
use vstd::prelude::*;

use vstd::string::StrSliceExecFns;

use crate::logging::config::{CleanupConfig, FileLogConfig};
use crate::logging::date::{
    date_le, date_not_after, format_iso_date, iso_date_text, parse_iso_date, parsed_iso_date,
    CalendarDate,
};
use crate::logging::error::{is_invalid_config, LogInitError};
use crate::logging::policy::msg_retention;
use crate::text::{empty_string, is_blank, is_blank_str, owned, push_char, push_str};

verus! {

broadcast use vstd::string::group_string_axioms;

/// The date part of a log file name: what lies between `<prefix>.` and the
/// final `.log`, when the name has that shape.
pub open spec fn spec_extract_date_part(name: Seq<char>, prefix: Seq<char>) -> Option<Seq<char>> {
    let n = name.len();
    let p = prefix.len();
    if n >= p + 5 && name.subrange(0, p as int) == prefix && name[p as int] == '.'
        && name.subrange(n - 4, n as int) == ".log"@ {
        Some(name.subrange(p + 1 as int, n - 4))
    } else {
        None
    }
}

/// The file name for a prefix and a date text.
pub open spec fn spec_log_file_name(prefix: Seq<char>, date_text: Seq<char>) -> Seq<char> {
    prefix + seq!['.'] + date_text + ".log"@
}

fn chars_match(text: &str, at: usize, expected: &str) -> (b: bool)
    requires
        at + expected@.len() <= text@.len(),
        text@.len() <= usize::MAX,
    ensures
        b == (text@.subrange(at as int, at + expected@.len()) == expected@),
{
    let m = expected.unicode_len();
    let mut i: usize = 0;
    while i < m
        invariant
            m == expected@.len(),
            at + m <= text@.len(),
            text@.len() <= usize::MAX,
            i <= m,
            forall|j: int| 0 <= j < i ==> text@[at + j] == expected@[j],
        decreases m - i,
    {
        if text.get_char(at + i) != expected.get_char(i) {
            assert(text@.subrange(at as int, at + m)[i as int] != expected@[i as int]);
            return false;
        }
        i = i + 1;
    }
    assert(text@.subrange(at as int, at + m) =~= expected@);
    true
}

fn copy_chars(text: &str, from: usize, to: usize) -> (s: String)
    requires
        from <= to <= text@.len(),
    ensures
        s@ == text@.subrange(from as int, to as int),
{
    let mut s = empty_string();
    let mut i = from;
    while i < to
        invariant
            from <= i <= to,
            to <= text@.len(),
            s@ == text@.subrange(from as int, i as int),
        decreases to - i,
    {
        push_char(&mut s, text.get_char(i));
        assert(s@ =~= text@.subrange(from as int, i + 1));
        i = i + 1;
    }
    s
}

/// Returns the date part of `<prefix>.<date>.log`, or `None` for any other name.
pub fn extract_date_part(file_name: &str, prefix: &str) -> (r: Option<String>)
    ensures
        match r {
            Some(s) => spec_extract_date_part(file_name@, prefix@) == Some(s@),
            None => spec_extract_date_part(file_name@, prefix@) is None,
        },
{
    proof {
        reveal_strlit(".log");
    }
    let n = file_name.unicode_len();
    let p = prefix.unicode_len();
    if n < 5 || p > n - 5 {
        return None;
    }
    if !chars_match(file_name, 0, prefix) {
        return None;
    }
    if file_name.get_char(p) != '.' {
        return None;
    }
    if !chars_match(file_name, n - 4, ".log") {
        return None;
    }
    Some(copy_chars(file_name, p + 1, n - 4))
}

/// The name of the log file of `date`: `<prefix>.<YYYY-MM-DD>.log`, the
/// date written by chrono; `None` when the numbers are no date. The cleanup
/// reads that very date back out of the name, so it judges the file by the
/// day it was written for.
pub fn log_file_name(prefix: &str, date: CalendarDate) -> (r: Option<String>)
    ensures
        match r {
            Some(s) => exists|t: Seq<char>|
                iso_date_text(date.year, date.month, date.day) == Some(t) && s@
                    == #[trigger] spec_log_file_name(prefix@, t),
            None => iso_date_text(date.year, date.month, date.day) is None,
        },
        r matches Some(s) ==> (spec_extract_date_part(s@, prefix@) matches Some(t)
            && parsed_iso_date(t) == Some(date)),
        r matches Some(s) ==> forall|expiration: CalendarDate|
            #[trigger] spec_is_expired(s@, prefix@, expiration) == date_le(date, expiration),
{
    match format_iso_date(date) {
        Some(text) => {
            let mut name = owned(prefix);
            push_char(&mut name, '.');
            push_str(&mut name, text.as_str());
            push_str(&mut name, ".log");
            assert(name@ =~= spec_log_file_name(prefix@, text@));
            proof {
                law_cleanup_recognises_written_names(prefix@, text@);
            }
            Some(name)
        },
        None => None,
    }
}

/// Whether a file in the log directory is an expired log file: its name is
/// `<prefix>.<date>.log`, chrono reads a date there, and that date is not
/// after `expiration`.
pub open spec fn spec_is_expired(name: Seq<char>, prefix: Seq<char>, expiration: CalendarDate) -> bool {
    match spec_extract_date_part(name, prefix) {
        Some(text) => match parsed_iso_date(text) {
            Some(date) => date_le(date, expiration),
            None => false,
        },
        None => false,
    }
}

/// Decides whether the cleanup removes the file `file_name`.
pub fn is_expired_log_file(file_name: &str, prefix: &str, expiration: CalendarDate) -> (b: bool)
    ensures
        b == spec_is_expired(file_name@, prefix@, expiration),
{
    match extract_date_part(file_name, prefix) {
        Some(text) => match parse_iso_date(text.as_str()) {
            Some(date) => date_not_after(date, expiration),
            None => false,
        },
        None => false,
    }
}

/// Decides whether old logs are to be cleaned up: not when file output or
/// cleanup is off, an error when cleanup keeps logs for no day.
pub fn cleanup_needed(file: &FileLogConfig, cleanup: &CleanupConfig) -> (r: Result<bool, LogInitError>)
    ensures
        !file.enabled || !cleanup.enabled ==> r == Ok::<bool, LogInitError>(false),
        file.enabled && cleanup.enabled && cleanup.max_retention_days < 1 ==> is_invalid_config(
            r,
            msg_retention(),
        ),
        file.enabled && cleanup.enabled && cleanup.max_retention_days >= 1 ==> r == Ok::<bool, LogInitError>(true),
{
    if !file.enabled || !cleanup.enabled {
        return Ok(false);
    }
    if cleanup.max_retention_days < 1 {
        return Err(
            LogInitError::InvalidConfig(
                owned("max_retention_days must be >= 1 when cleanup is enabled"),
            ),
        );
    }
    Ok(true)
}

/// Message of a blank file prefix when the file appender starts.
pub open spec fn msg_appender_prefix() -> Seq<char> {
    "file_prefix must not be empty when file logging is enabled"@
}

/// Checks the prefix of the file appender: it must not be blank.
pub fn check_file_prefix(prefix: &str) -> (r: Result<(), LogInitError>)
    ensures
        !is_blank(prefix@) <==> r is Ok,
        is_blank(prefix@) ==> is_invalid_config(r, msg_appender_prefix()),
{
    if is_blank_str(prefix) {
        return Err(
            LogInitError::InvalidConfig(
                owned("file_prefix must not be empty when file logging is enabled"),
            ),
        );
    }
    Ok(())
}

/// The appender switches files exactly when the local date has changed.
pub fn needs_rollover(active: CalendarDate, current: CalendarDate) -> (b: bool)
    ensures
        b == (active != current),
{
    !(active.year == current.year && active.month == current.month && active.day == current.day)
}

/// The cleanup recognises every file that the appender names: the date part
/// of `log_file_name(prefix, date)` is the date text chrono wrote.
pub proof fn law_cleanup_recognises_written_names(prefix: Seq<char>, date_text: Seq<char>)
    ensures
        spec_extract_date_part(spec_log_file_name(prefix, date_text), prefix) == Some(date_text),
{
    reveal_strlit(".log");
    let name = spec_log_file_name(prefix, date_text);
    let p = prefix.len();
    let n = name.len();
    assert(name.subrange(0, p as int) =~= prefix);
    assert(name[p as int] == '.');
    assert(name.subrange(n - 4, n as int) =~= ".log"@);
    assert(name.subrange(p + 1 as int, n - 4) =~= date_text);
}

/// The file that the appender writes for `today` survives every cleanup
/// whose expiration lies before today: cleanup reads `today` back from the
/// name, and a day after the expiration is not expired.
pub proof fn law_todays_file_survives_cleanup(
    name: Seq<char>,
    prefix: Seq<char>,
    today: CalendarDate,
    expiration: CalendarDate,
)
    requires
        spec_extract_date_part(name, prefix) matches Some(t) && parsed_iso_date(t) == Some(today),
        date_le(expiration, today),
        expiration != today,
    ensures
        !spec_is_expired(name, prefix, expiration),
{
}

/// Names of other files are never taken for log files: any name whose date
/// part is found has the shape `<prefix>.<date>.log` for that part.
pub proof fn law_extracted_names_have_log_shape(name: Seq<char>, prefix: Seq<char>)
    ensures
        spec_extract_date_part(name, prefix) matches Some(d) ==> name == spec_log_file_name(
            prefix,
            d,
        ),
{
    reveal_strlit(".log");
    if let Some(d) = spec_extract_date_part(name, prefix) {
        let p = prefix.len();
        let n = name.len();
        assert(name =~= spec_log_file_name(prefix, d)) by {
            assert forall|i: int| 0 <= i < n implies name[i] == spec_log_file_name(prefix, d)[i] by {
                if i < p {
                    assert(name.subrange(0, p as int)[i] == prefix[i]);
                } else if i == p {
                } else if i < n - 4 {
                    assert(name.subrange(p + 1 as int, n - 4)[i - p - 1] == name[i]);
                } else {
                    assert(name.subrange(n - 4, n as int)[i - (n - 4)] == name[i]);
                }
            }
        }
    }
}

} // verus!
