//! Decisions of the logging backend: which configurations are accepted, how
//! levels are stored, which events pass a filter, and what a runtime update
//! does to the file output.
use vstd::prelude::*;

use std::path::PathBuf;

use crate::log::level::LogLevel;
use crate::logging::config::{spec_runtime_part, FileLogConfig, LogConfig, RuntimeLogConfig};
use crate::logging::error::{is_invalid_config, LogInitError};
use crate::text::{is_blank, is_blank_str, owned};

verus! {

/// Message of a runtime configuration that enables logging with no output.
pub open spec fn msg_no_output() -> Seq<char> {
    "enabled=true requires console or file logging to be enabled"@
}

/// Message of a cleanup that keeps logs for no day at all.
pub open spec fn msg_retention() -> Seq<char> {
    "max_retention_days must be >= 1 when cleanup is enabled"@
}

/// Message of a blank file prefix at start-up.
pub open spec fn msg_blank_prefix() -> Seq<char> {
    "file_prefix must not be empty"@
}

/// A runtime configuration is accepted unless it enables logging while
/// disabling both outputs.
pub open spec fn runtime_config_valid(config: RuntimeLogConfig) -> bool {
    !(config.enabled && !config.console_enabled && !config.file_enabled)
}

/// The message of the first check that a start-up configuration fails, if any.
pub open spec fn init_config_problem(config: LogConfig) -> Option<Seq<char>> {
    if !runtime_config_valid(spec_runtime_part(config)) {
        Some(msg_no_output())
    } else if config.cleanup.enabled && config.cleanup.max_retention_days < 1 {
        Some(msg_retention())
    } else if is_blank(config.file.file_prefix@) {
        Some(msg_blank_prefix())
    } else {
        None
    }
}

/// Checks a runtime configuration.
pub fn validate_runtime_config(config: RuntimeLogConfig) -> (r: Result<(), LogInitError>)
    ensures
        runtime_config_valid(config) <==> r is Ok,
        !runtime_config_valid(config) ==> is_invalid_config(r, msg_no_output()),
{
    if config.enabled && !config.console_enabled && !config.file_enabled {
        return Err(
            LogInitError::InvalidConfig(
                owned("enabled=true requires console or file logging to be enabled"),
            ),
        );
    }
    Ok(())
}

/// Checks a start-up configuration: the runtime part, the retention days
/// and the file prefix, in this order.
pub fn validate_init_config(config: &LogConfig) -> (r: Result<(), LogInitError>)
    ensures
        init_config_problem(*config) is None <==> r is Ok,
        init_config_problem(*config) matches Some(m) ==> is_invalid_config(r, m),
{
    validate_runtime_config(RuntimeLogConfig::from(config))?;
    if config.cleanup.enabled && config.cleanup.max_retention_days < 1 {
        return Err(
            LogInitError::InvalidConfig(
                owned("max_retention_days must be >= 1 when cleanup is enabled"),
            ),
        );
    }
    if is_blank_str(config.file.file_prefix.as_str()) {
        return Err(LogInitError::InvalidConfig(owned("file_prefix must not be empty")));
    }
    Ok(())
}

/// The stored code of a level: 1 for error up to 5 for trace.
pub open spec fn spec_level_code(level: LogLevel) -> u8 {
    match level {
        LogLevel::Error => 1,
        LogLevel::Warn => 2,
        LogLevel::Info => 3,
        LogLevel::Debug => 4,
        LogLevel::Trace => 5,
    }
}

/// The level of a stored code; codes outside 1..=5 read as info.
pub open spec fn spec_code_level(code: u8) -> LogLevel {
    if code == 1 {
        LogLevel::Error
    } else if code == 2 {
        LogLevel::Warn
    } else if code == 4 {
        LogLevel::Debug
    } else if code == 5 {
        LogLevel::Trace
    } else {
        LogLevel::Info
    }
}

/// Encodes a level for atomic storage.
pub fn level_to_u8(level: LogLevel) -> (r: u8)
    ensures
        r == spec_level_code(level),
{
    match level {
        LogLevel::Error => 1,
        LogLevel::Warn => 2,
        LogLevel::Info => 3,
        LogLevel::Debug => 4,
        LogLevel::Trace => 5,
    }
}

/// Decodes a stored level; unknown codes read as info.
pub fn u8_to_log_level(level: u8) -> (r: LogLevel)
    ensures
        r == spec_code_level(level),
{
    match level {
        1 => LogLevel::Error,
        2 => LogLevel::Warn,
        3 => LogLevel::Info,
        4 => LogLevel::Debug,
        5 => LogLevel::Trace,
        _ => LogLevel::Info,
    }
}

/// The runtime switches as the backend stores them: flags and a level code.
#[derive(Debug, Clone, Copy, PartialEq, Eq, Structural)]
pub struct RuntimeState {
    pub enabled: bool,
    pub level: u8,
    pub console_enabled: bool,
    pub file_enabled: bool,
}

/// The configuration that a stored state stands for.
pub open spec fn spec_state_config(state: RuntimeState) -> RuntimeLogConfig {
    RuntimeLogConfig {
        enabled: state.enabled,
        level: spec_code_level(state.level),
        console_enabled: state.console_enabled,
        file_enabled: state.file_enabled,
    }
}

/// The state that stores a configuration.
pub open spec fn spec_config_state(config: RuntimeLogConfig) -> RuntimeState {
    RuntimeState {
        enabled: config.enabled,
        level: spec_level_code(config.level),
        console_enabled: config.console_enabled,
        file_enabled: config.file_enabled,
    }
}

impl RuntimeState {
    /// Stores a configuration.
    pub fn from_runtime_config(config: RuntimeLogConfig) -> (s: RuntimeState)
        ensures
            s == spec_config_state(config),
    {
        RuntimeState {
            enabled: config.enabled,
            level: level_to_u8(config.level),
            console_enabled: config.console_enabled,
            file_enabled: config.file_enabled,
        }
    }

    /// Reads the stored configuration back.
    pub fn current_runtime_config(&self) -> (c: RuntimeLogConfig)
        ensures
            c == spec_state_config(*self),
    {
        RuntimeLogConfig {
            enabled: self.enabled,
            level: u8_to_log_level(self.level),
            console_enabled: self.console_enabled,
            file_enabled: self.file_enabled,
        }
    }

    /// Overwrites every switch with those of `config`.
    pub fn store(&mut self, config: RuntimeLogConfig)
        ensures
            *final(self) == spec_config_state(config),
    {
        self.enabled = config.enabled;
        self.level = level_to_u8(config.level);
        self.console_enabled = config.console_enabled;
        self.file_enabled = config.file_enabled;
    }
}

/// The two outputs of the backend.
#[derive(Debug, Clone, Copy, PartialEq, Eq, Structural)]
pub enum OutputKind {
    Console,
    File,
}

/// The per-output filter: an event passes when logging is on, its output is
/// on, and the event is at most as verbose as the configured level.
#[derive(Debug, Clone, Copy)]
pub struct RuntimeFilter {
    pub state: RuntimeState,
    pub output: OutputKind,
}

/// Whether a filter lets through an event of `level`.
pub open spec fn spec_filter_admits(filter: RuntimeFilter, level: LogLevel) -> bool {
    &&& filter.state.enabled
    &&& match filter.output {
        OutputKind::Console => filter.state.console_enabled,
        OutputKind::File => filter.state.file_enabled,
    }
    &&& spec_level_code(level) <= spec_level_code(spec_code_level(filter.state.level))
}

impl RuntimeFilter {
    /// Whether this filter's output is switched on.
    pub fn output_enabled(&self) -> (b: bool)
        ensures
            b == match self.output {
                OutputKind::Console => self.state.console_enabled,
                OutputKind::File => self.state.file_enabled,
            },
    {
        match self.output {
            OutputKind::Console => self.state.console_enabled,
            OutputKind::File => self.state.file_enabled,
        }
    }

    /// The most verbose level that passes.
    pub fn level(&self) -> (l: LogLevel)
        ensures
            l == spec_code_level(self.state.level),
    {
        u8_to_log_level(self.state.level)
    }

    /// Whether an event of `level` passes the filter.
    pub fn enabled(&self, level: LogLevel) -> (b: bool)
        ensures
            b == spec_filter_admits(*self, level),
    {
        self.state.enabled && self.output_enabled() && level_to_u8(level) <= level_to_u8(
            self.level(),
        )
    }
}

/// What a runtime update does to the file output.
#[derive(Debug, Clone, Copy, PartialEq, Eq, Structural)]
pub enum FileOutputChange {
    /// Open the log file: file output goes from off to on.
    Enable,
    /// Close the log file: file output goes from on to off.
    Disable,
    /// Leave the file output as it is.
    Keep,
}

/// The file-output change between two configurations.
pub open spec fn spec_file_change(current: RuntimeLogConfig, next: RuntimeLogConfig) -> FileOutputChange {
    if !current.file_enabled && next.file_enabled {
        FileOutputChange::Enable
    } else if current.file_enabled && !next.file_enabled {
        FileOutputChange::Disable
    } else {
        FileOutputChange::Keep
    }
}

/// Decides a runtime update: refuses an invalid configuration, else says how
/// the file output must change before the new switches are stored.
pub fn plan_runtime_update(current: RuntimeLogConfig, next: RuntimeLogConfig) -> (r: Result<
    FileOutputChange,
    LogInitError,
>)
    ensures
        !runtime_config_valid(next) ==> is_invalid_config(r, msg_no_output()),
        runtime_config_valid(next) ==> (r matches Ok(c) && c == spec_file_change(current, next)),
{
    validate_runtime_config(next)?;
    if !current.file_enabled && next.file_enabled {
        Ok(FileOutputChange::Enable)
    } else if current.file_enabled && !next.file_enabled {
        Ok(FileOutputChange::Disable)
    } else {
        Ok(FileOutputChange::Keep)
    }
}

/// Completes a runtime update once the file output has been changed as
/// planned: when that step succeeded the new switches are stored; when it
/// failed the stored switches stay as they were and its error is returned.
pub fn finish_runtime_update(
    state: &mut RuntimeState,
    next: RuntimeLogConfig,
    file_step: Result<(), LogInitError>,
) -> (r: Result<(), LogInitError>)
    ensures
        file_step is Ok ==> r is Ok && *final(state) == spec_config_state(next),
        file_step is Err ==> r == file_step && *final(state) == *old(state),
{
    match file_step {
        Ok(()) => {
            state.store(next);
            Ok(())
        },
        Err(e) => Err(e),
    }
}

/// What moving the log files to another directory does.
#[derive(Debug)]
pub struct DirectoryUpdate {
    /// The file settings to keep once the move is done.
    pub next: FileLogConfig,
    /// Whether a new appender must be opened in the new directory now.
    pub rebuild_appender: bool,
}

/// Decides a directory change: the next settings are the current ones with
/// the new directory, and the appender is reopened at once only while file
/// output is on (otherwise the next enable opens it there).
pub fn plan_directory_update(
    current: &FileLogConfig,
    directory: PathBuf,
    file_output_on: bool,
) -> (u: DirectoryUpdate)
    ensures
        u.next == (FileLogConfig {
            enabled: current.enabled,
            directory: directory,
            file_prefix: current.file_prefix,
        }),
        u.rebuild_appender == file_output_on,
{
    DirectoryUpdate {
        next: FileLogConfig {
            enabled: current.enabled,
            directory,
            file_prefix: current.file_prefix.clone(),
        },
        rebuild_appender: file_output_on,
    }
}

/// Completes a directory change: when reopening the appender succeeded (or
/// was not needed) the next settings are stored; when it failed the stored
/// settings stay as they were and its error is returned.
pub fn finish_directory_update(
    stored: &mut FileLogConfig,
    next: FileLogConfig,
    rebuild: Result<(), LogInitError>,
) -> (r: Result<(), LogInitError>)
    ensures
        rebuild is Ok ==> r is Ok && *final(stored) == next,
        rebuild is Err ==> r == rebuild && *final(stored) == *old(stored),
{
    match rebuild {
        Ok(()) => {
            *stored = next;
            Ok(())
        },
        Err(e) => Err(e),
    }
}

/// Storing a level and reading it back gives the same level, and the codes
/// order levels from the most to the least severe.
pub proof fn law_level_code_roundtrip(a: LogLevel, b: LogLevel)
    ensures
        spec_code_level(spec_level_code(a)) == a,
        1 <= spec_level_code(a) <= 5,
        a != b ==> spec_level_code(a) != spec_level_code(b),
{
}

/// The levels from the most to the least severe, as `LogLevel` declares them.
pub open spec fn severity_order() -> Seq<LogLevel> {
    seq![LogLevel::Error, LogLevel::Warn, LogLevel::Info, LogLevel::Debug, LogLevel::Trace]
}

/// The stored code of a level is its place in the severity order, counted
/// from 1: error 1, warn 2, info 3, debug 4, trace 5; reading a code back
/// gives that level, and every other code reads as info.
pub proof fn law_level_codes_follow_severity(code: u8)
    ensures
        forall|i: int| 0 <= i < 5 ==> spec_level_code(#[trigger] severity_order()[i]) == i + 1,
        forall|i: int| 0 <= i < 5 ==> spec_code_level((i + 1) as u8) == #[trigger] severity_order()[i],
        spec_level_code(LogLevel::Error) < spec_level_code(LogLevel::Warn),
        spec_level_code(LogLevel::Warn) < spec_level_code(LogLevel::Info),
        spec_level_code(LogLevel::Info) < spec_level_code(LogLevel::Debug),
        spec_level_code(LogLevel::Debug) < spec_level_code(LogLevel::Trace),
        (code == 0 || code > 5) ==> spec_code_level(code) == LogLevel::Info,
{
    assert(severity_order()[0] == LogLevel::Error);
    assert(severity_order()[1] == LogLevel::Warn);
    assert(severity_order()[2] == LogLevel::Info);
    assert(severity_order()[3] == LogLevel::Debug);
    assert(severity_order()[4] == LogLevel::Trace);
}

/// A filter whose level is the `j`-th of the severity order admits the
/// `i`-th level exactly when logging and its output are on and that level is
/// at least as severe (`i <= j`): a filter at info passes errors, warnings
/// and info, and drops debug and trace.
pub proof fn law_filter_admits_levels_at_least_as_severe(filter: RuntimeFilter, i: int, j: int)
    requires
        0 <= i < 5,
        0 <= j < 5,
        spec_code_level(filter.state.level) == severity_order()[j],
    ensures
        spec_filter_admits(filter, severity_order()[i]) <==> (filter.state.enabled && match filter.output {
            OutputKind::Console => filter.state.console_enabled,
            OutputKind::File => filter.state.file_enabled,
        } && i <= j),
{
    law_level_codes_follow_severity(0);
    assert(spec_level_code(severity_order()[i]) == i + 1);
    assert(spec_level_code(severity_order()[j]) == j + 1);
}

/// A runtime configuration is refused only when logging is on and both
/// outputs are off: any configuration with logging off, or with the console
/// or the file output on, is accepted (file-only logging included).
pub proof fn law_runtime_config_needs_an_output_only_when_enabled(config: RuntimeLogConfig)
    ensures
        !config.enabled ==> runtime_config_valid(config),
        config.console_enabled ==> runtime_config_valid(config),
        config.file_enabled ==> runtime_config_valid(config),
        config.enabled && !config.console_enabled && !config.file_enabled ==> !runtime_config_valid(
            config,
        ),
{
}

/// Reading back a stored configuration gives the configuration that was
/// stored, so after an accepted update the backend reports the new settings.
pub proof fn law_runtime_config_roundtrip(config: RuntimeLogConfig)
    ensures
        spec_state_config(spec_config_state(config)) == config,
{
}

/// A filter on an output that is on admits exactly the events at most as
/// verbose as its level: errors always pass, and each more verbose level
/// passes only if the next less verbose one does.
pub proof fn law_filter_threshold(filter: RuntimeFilter, level: LogLevel, quieter: LogLevel)
    requires
        spec_level_code(quieter) <= spec_level_code(level),
    ensures
        spec_filter_admits(filter, level) ==> spec_filter_admits(filter, quieter),
        spec_filter_admits(filter, LogLevel::Trace) ==> spec_filter_admits(filter, level),
{
}

/// An update that passes validation leaves the file output on exactly when
/// the new configuration asks for it.
pub proof fn law_update_reaches_requested_file_output(current: RuntimeLogConfig, next: RuntimeLogConfig)
    requires
        runtime_config_valid(next),
    ensures
        (current.file_enabled && spec_file_change(current, next) != FileOutputChange::Disable)
            || spec_file_change(current, next) == FileOutputChange::Enable <==> next.file_enabled,
{
}

} // verus!
