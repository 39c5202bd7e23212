use std::path::PathBuf;

use chrono::{Datelike, Local};

use george_template::log::level::LogLevel;
use george_template::logging::config::{
    CleanupConfig, ConsoleLogConfig, FileLogConfig, RuntimeLogConfig, StdLogConfig,
};
use george_template::logging::date::{cleanup_expiration, CalendarDate};
use george_template::logging::error::LogInitError;
use george_template::logging::files::{
    check_file_prefix, cleanup_needed, extract_date_part, is_expired_log_file, log_file_name,
    needs_rollover,
};
use george_template::logging::policy::{
    finish_directory_update, finish_runtime_update, level_to_u8, plan_directory_update,
    plan_runtime_update, u8_to_log_level, validate_init_config, validate_runtime_config,
    FileOutputChange, OutputKind, RuntimeFilter, RuntimeState,
};

fn config() -> StdLogConfig {
    StdLogConfig {
        enabled: true,
        level: LogLevel::Info,
        console: ConsoleLogConfig { enabled: true },
        file: FileLogConfig {
            enabled: false,
            directory: PathBuf::from("./logs"),
            file_prefix: "test".to_string(),
        },
        cleanup: CleanupConfig {
            enabled: false,
            max_retention_days: 7,
        },
    }
}

fn runtime_config() -> RuntimeLogConfig {
    RuntimeLogConfig {
        enabled: true,
        level: LogLevel::Info,
        console_enabled: true,
        file_enabled: false,
    }
}

fn date(year: i32, month: u32, day: u32) -> CalendarDate {
    CalendarDate { year, month, day }
}

fn message(result: Result<impl std::fmt::Debug, LogInitError>) -> String {
    match result {
        Err(LogInitError::InvalidConfig(m)) => m,
        other => panic!("expected InvalidConfig, got {other:?}"),
    }
}

#[test]
fn rejects_enabled_without_any_output() {
    let mut cfg = config();
    cfg.console.enabled = false;

    let result = validate_init_config(&cfg);

    assert!(matches!(result, Err(LogInitError::InvalidConfig(_))));
}

#[test]
fn rejects_invalid_cleanup_days() {
    let mut cfg = config();
    cfg.cleanup.enabled = true;
    cfg.cleanup.max_retention_days = 0;

    let result = validate_init_config(&cfg);

    assert!(matches!(result, Err(LogInitError::InvalidConfig(_))));
}

#[test]
fn rejects_empty_file_prefix() {
    let mut cfg = config();
    cfg.file.file_prefix.clear();

    let result = validate_init_config(&cfg);

    assert!(matches!(result, Err(LogInitError::InvalidConfig(_))));
}

#[test]
fn rejects_invalid_runtime_config() {
    let invalid = RuntimeLogConfig {
        enabled: true,
        level: LogLevel::Info,
        console_enabled: false,
        file_enabled: false,
    };

    let result = validate_runtime_config(invalid);

    assert!(matches!(result, Err(LogInitError::InvalidConfig(_))));
}

#[test]
fn current_runtime_config_reflects_updates() {
    let mut state = RuntimeState::from_runtime_config(runtime_config());
    let updated = RuntimeLogConfig {
        enabled: false,
        level: LogLevel::Debug,
        console_enabled: true,
        file_enabled: false,
    };

    let change = plan_runtime_update(state.current_runtime_config(), updated)
        .expect("runtime config update should succeed");
    assert_eq!(change, FileOutputChange::Keep);
    state.store(updated);

    assert_eq!(state.current_runtime_config(), updated);
}

#[test]
fn rejects_invalid_retention_days() {
    let file = FileLogConfig {
        enabled: true,
        directory: PathBuf::from("logs"),
        file_prefix: "app".to_string(),
    };
    let cleanup = CleanupConfig {
        enabled: true,
        max_retention_days: 0,
    };

    let result = cleanup_needed(&file, &cleanup);

    assert!(matches!(result, Err(LogInitError::InvalidConfig(_))));
}

#[test]
fn validation_messages_follow_check_order() {
    let mut cfg = config();
    cfg.console.enabled = false;
    cfg.cleanup.enabled = true;
    cfg.cleanup.max_retention_days = 0;
    cfg.file.file_prefix = "  ".to_string();
    assert_eq!(
        message(validate_init_config(&cfg)),
        "enabled=true requires console or file logging to be enabled"
    );
    cfg.console.enabled = true;
    assert_eq!(
        message(validate_init_config(&cfg)),
        "max_retention_days must be >= 1 when cleanup is enabled"
    );
    cfg.cleanup.max_retention_days = 1;
    assert_eq!(message(validate_init_config(&cfg)), "file_prefix must not be empty");
    cfg.file.file_prefix = "app".to_string();
    assert!(validate_init_config(&cfg).is_ok());
    cfg.enabled = false;
    cfg.console.enabled = false;
    assert!(validate_init_config(&cfg).is_ok());
}

#[test]
fn runtime_config_from_log_config_copies_switches() {
    let mut cfg = config();
    cfg.file.enabled = true;
    cfg.level = LogLevel::Trace;
    let runtime = RuntimeLogConfig::from(&cfg);
    assert_eq!(
        runtime,
        RuntimeLogConfig {
            enabled: true,
            level: LogLevel::Trace,
            console_enabled: true,
            file_enabled: true,
        }
    );
}

#[test]
fn level_codes_roundtrip_and_default_to_info() {
    for level in [LogLevel::Error, LogLevel::Warn, LogLevel::Info, LogLevel::Debug, LogLevel::Trace] {
        assert_eq!(u8_to_log_level(level_to_u8(level)), level);
    }
    assert_eq!(level_to_u8(LogLevel::Error), 1);
    assert_eq!(level_to_u8(LogLevel::Trace), 5);
    assert_eq!(u8_to_log_level(0), LogLevel::Info);
    assert_eq!(u8_to_log_level(6), LogLevel::Info);
    assert_eq!(u8_to_log_level(255), LogLevel::Info);
}

#[test]
fn runtime_filter_admits_up_to_its_level() {
    let state = RuntimeState::from_runtime_config(runtime_config());
    let console = RuntimeFilter { state, output: OutputKind::Console };
    let file = RuntimeFilter { state, output: OutputKind::File };
    assert!(console.output_enabled());
    assert!(!file.output_enabled());
    assert_eq!(console.level(), LogLevel::Info);
    assert!(console.enabled(LogLevel::Error));
    assert!(console.enabled(LogLevel::Info));
    assert!(!console.enabled(LogLevel::Debug));
    assert!(!file.enabled(LogLevel::Error));
    let off = RuntimeFilter {
        state: RuntimeState { enabled: false, ..state },
        output: OutputKind::Console,
    };
    assert!(!off.enabled(LogLevel::Error));
}

#[test]
fn runtime_update_plans_file_output_changes() {
    let off = runtime_config();
    let on = RuntimeLogConfig { file_enabled: true, ..off };
    assert_eq!(plan_runtime_update(off, on).unwrap(), FileOutputChange::Enable);
    assert_eq!(plan_runtime_update(on, off).unwrap(), FileOutputChange::Disable);
    assert_eq!(plan_runtime_update(on, on).unwrap(), FileOutputChange::Keep);
    let invalid = RuntimeLogConfig { console_enabled: false, file_enabled: false, ..off };
    assert_eq!(
        message(plan_runtime_update(on, invalid)),
        "enabled=true requires console or file logging to be enabled"
    );
}

#[test]
fn log_file_names_use_chrono_dates() {
    assert_eq!(log_file_name("demo", date(2026, 4, 11)).as_deref(), Some("demo.2026-04-11.log"));
    assert_eq!(log_file_name("demo", date(2026, 4, 12)).as_deref(), Some("demo.2026-04-12.log"));
    assert_eq!(log_file_name("demo", date(2026, 2, 30)), None);
}

#[test]
fn date_part_is_extracted_only_from_matching_names() {
    assert_eq!(extract_date_part("app.2000-01-01.log", "app").as_deref(), Some("2000-01-01"));
    assert_eq!(extract_date_part("other.2000-01-01.log", "app"), None);
    assert_eq!(extract_date_part("app.log", "app"), None);
    assert_eq!(extract_date_part("app..log", "app").as_deref(), Some(""));
    assert_eq!(extract_date_part("app2000-01-01.log", "app"), None);
    assert_eq!(extract_date_part("app.2000-01-01.txt", "app"), None);
    let name = log_file_name("app", date(1999, 12, 31)).unwrap();
    assert_eq!(extract_date_part(&name, "app").as_deref(), Some("1999-12-31"));
}

#[test]
fn expired_files_are_matching_names_not_after_expiration() {
    let expiration = cleanup_expiration(date(2026, 4, 11), 7).expect("representable");
    assert_eq!(expiration, date(2026, 4, 4));
    assert!(is_expired_log_file("app.2000-01-01.log", "app", expiration));
    assert!(is_expired_log_file("app.2026-04-04.log", "app", expiration));
    assert!(!is_expired_log_file("app.2026-04-05.log", "app", expiration));
    assert!(!is_expired_log_file("app.2026-04-11.log", "app", expiration));
    assert!(!is_expired_log_file("other.2000-01-01.log", "app", expiration));
    assert!(!is_expired_log_file("app.not-a-date.log", "app", expiration));
    assert_eq!(cleanup_expiration(date(2026, 3, 1), 1), Some(date(2026, 2, 28)));
}

#[test]
fn expiration_lies_before_today_unless_nothing_is_kept() {
    assert_eq!(cleanup_expiration(date(2026, 4, 11), 0), Some(date(2026, 4, 11)));
    assert_eq!(cleanup_expiration(date(2024, 3, 1), 1), Some(date(2024, 2, 29)));
    assert_eq!(cleanup_expiration(date(2026, 1, 1), 365), Some(date(2025, 1, 1)));
    assert_eq!(cleanup_expiration(date(2026, 2, 30), 1), None);
}

#[test]
fn cleanup_runs_only_when_file_output_and_cleanup_are_on() {
    let mut file = FileLogConfig {
        enabled: true,
        directory: PathBuf::from("logs"),
        file_prefix: "app".to_string(),
    };
    let mut cleanup = CleanupConfig { enabled: true, max_retention_days: 7 };
    assert!(cleanup_needed(&file, &cleanup).unwrap());
    cleanup.enabled = false;
    assert!(!cleanup_needed(&file, &cleanup).unwrap());
    cleanup.enabled = true;
    file.enabled = false;
    cleanup.max_retention_days = 0;
    assert!(!cleanup_needed(&file, &cleanup).unwrap());
}

#[test]
fn appender_prefix_and_rollover_rules() {
    assert!(check_file_prefix("demo").is_ok());
    assert_eq!(
        message(check_file_prefix(" \t")),
        "file_prefix must not be empty when file logging is enabled"
    );
    assert!(!needs_rollover(date(2026, 4, 11), date(2026, 4, 11)));
    assert!(needs_rollover(date(2026, 4, 11), date(2026, 4, 12)));
}

#[test]
fn deletes_only_expired_matching_files() {
    let now = Local::now().date_naive();
    let today = date(now.year(), now.month(), now.day());
    let expiration = cleanup_expiration(today, 7).expect("representable");

    let expired = "app.2000-01-01.log".to_string();
    let fresh = format!("app.{}.log", now.format("%Y-%m-%d"));
    let foreign = "other.2000-01-01.log".to_string();

    assert!(is_expired_log_file(&expired, "app", expiration));
    assert!(!is_expired_log_file(&fresh, "app", expiration));
    assert!(!is_expired_log_file(&foreign, "app", expiration));
}

#[test]
fn update_file_directory_replaces_stored_path() {
    let mut stored = FileLogConfig {
        enabled: false,
        directory: PathBuf::from("logs"),
        file_prefix: "test".to_string(),
    };
    let next = PathBuf::from("logs").join("platform-std-logging-next");

    let update = plan_directory_update(&stored, next.clone(), false);
    assert!(!update.rebuild_appender);
    finish_directory_update(&mut stored, update.next, Ok(()))
        .expect("file directory update should succeed");

    assert_eq!(stored.directory, next);
    assert_eq!(stored.file_prefix, "test");
    assert!(!stored.enabled);
}

#[test]
fn failed_reopen_keeps_the_stored_directory() {
    let mut stored = FileLogConfig {
        enabled: true,
        directory: PathBuf::from("logs"),
        file_prefix: "app".to_string(),
    };
    let update = plan_directory_update(&stored, PathBuf::from("elsewhere"), true);
    assert!(update.rebuild_appender);
    assert_eq!(update.next.directory, PathBuf::from("elsewhere"));
    assert_eq!(update.next.file_prefix, "app");

    let failure = LogInitError::BuildFileAppender(std::io::Error::other("disk full"));
    let result = finish_directory_update(&mut stored, update.next, Err(failure));
    assert!(matches!(result, Err(LogInitError::BuildFileAppender(_))));
    assert_eq!(stored.directory, PathBuf::from("logs"));
}

#[test]
fn runtime_update_stores_switches_only_after_the_file_step() {
    let mut state = RuntimeState::from_runtime_config(runtime_config());
    let with_file = RuntimeLogConfig {
        enabled: true,
        level: LogLevel::Trace,
        console_enabled: false,
        file_enabled: true,
    };

    let failure = LogInitError::BuildFileAppender(std::io::Error::other("no permission"));
    let result = finish_runtime_update(&mut state, with_file, Err(failure));
    assert!(matches!(result, Err(LogInitError::BuildFileAppender(_))));
    assert_eq!(state.current_runtime_config(), runtime_config());

    finish_runtime_update(&mut state, with_file, Ok(())).expect("update succeeds");
    assert_eq!(state.current_runtime_config(), with_file);
}

#[test]
fn todays_file_survives_every_cleanup_that_keeps_a_day() {
    for today in [date(2026, 4, 11), date(2024, 2, 29), date(1999, 12, 31), date(12000, 1, 1)] {
        let name = log_file_name("app", today).expect("valid date");
        assert_eq!(extract_date_part(&name, "app").is_some(), true);
        for days in [1u16, 7, 365] {
            let expiration = cleanup_expiration(today, days).expect("representable");
            assert!(!is_expired_log_file(&name, "app", expiration));
        }
        assert!(is_expired_log_file(&name, "app", today));
    }
}
