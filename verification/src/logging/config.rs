use vstd::prelude::*;

use std::path::PathBuf;

use crate::log::level::LogLevel;

verus! {

#[verifier::external_type_specification]
#[verifier::external_body]
pub struct ExPathBuf(std::path::PathBuf);

/// A cloned `PathBuf` holds the same path.
pub assume_specification[ <std::path::PathBuf as Clone>::clone ](p: &PathBuf) -> (r: PathBuf)
    ensures
        r == *p,
;

/// Full logging configuration used at start-up.
#[derive(Debug, Clone)]
pub struct LogConfig {
    pub enabled: bool,
    pub level: LogLevel,
    pub console: ConsoleLogConfig,
    pub file: FileLogConfig,
    pub cleanup: CleanupConfig,
}

/// The configuration of the std logging backend: the same shape as `LogConfig`.
pub type StdLogConfig = LogConfig;

/// Console output settings.
#[derive(Debug, Clone, Copy)]
pub struct ConsoleLogConfig {
    pub enabled: bool,
}

/// File output settings: whether to write, where, and the file name prefix.
#[derive(Debug, Clone)]
pub struct FileLogConfig {
    pub enabled: bool,
    pub directory: PathBuf,
    pub file_prefix: String,
}

/// Retention settings for old log files.
#[derive(Debug, Clone, Copy)]
pub struct CleanupConfig {
    pub enabled: bool,
    pub max_retention_days: u16,
}

/// The part of the configuration that can change while the program runs.
#[derive(Debug, Clone, Copy, PartialEq, Eq, Structural)]
pub struct RuntimeLogConfig {
    pub enabled: bool,
    pub level: LogLevel,
    pub console_enabled: bool,
    pub file_enabled: bool,
}

/// The runtime part of a full configuration.
pub open spec fn spec_runtime_part(config: LogConfig) -> RuntimeLogConfig {
    RuntimeLogConfig {
        enabled: config.enabled,
        level: config.level,
        console_enabled: config.console.enabled,
        file_enabled: config.file.enabled,
    }
}

impl<'a> From<&'a LogConfig> for RuntimeLogConfig {
    fn from(config: &'a LogConfig) -> (r: RuntimeLogConfig)
        ensures
            r == spec_runtime_part(*config),
    {
        RuntimeLogConfig {
            enabled: config.enabled,
            level: config.level,
            console_enabled: config.console.enabled,
            file_enabled: config.file.enabled,
        }
    }
}

impl<'a> vstd::std_specs::convert::FromSpecImpl<&'a LogConfig> for RuntimeLogConfig {
    open spec fn obeys_from_spec() -> bool {
        true
    }

    open spec fn from_spec(config: &'a LogConfig) -> RuntimeLogConfig {
        spec_runtime_part(*config)
    }
}

} // verus!
