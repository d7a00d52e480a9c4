use dm_database_sqllog2db::error::{ConfigError, Error};
use dm_database_sqllog2db::logging::{parse_log_level, LogLevel};

#[test]
fn test_parse_log_level_all() {
    for level in &["trace", "debug", "info", "warn", "error"] {
        assert!(parse_log_level(level).is_ok());
    }
}

#[test]
fn test_parse_log_level_uppercase() {
    assert!(parse_log_level("INFO").is_ok());
    assert!(parse_log_level("DEBUG").is_ok());
}

#[test]
fn test_parse_log_level_invalid() {
    assert!(parse_log_level("verbose").is_err());
    assert!(parse_log_level("").is_err());
}

#[test]
fn parse_log_level_maps_names() {
    assert_eq!(parse_log_level("Warn").unwrap(), LogLevel::Warn);
    assert_eq!(parse_log_level("trace").unwrap(), LogLevel::Trace);
}

#[test]
fn parse_log_level_error_carries_input() {
    match parse_log_level("loud") {
        Err(Error::Config(ConfigError::InvalidLogLevel { level, valid_levels })) => {
            assert_eq!(level, "loud");
            assert_eq!(valid_levels, vec!["trace", "debug", "info", "warn", "error"]);
        }
        other => panic!("unexpected: {other:?}"),
    }
}

use dm_database_sqllog2db::logging::level_enabled;

#[test]
fn levels_enabled_up_to_maximum() {
    assert!(level_enabled(Some(LogLevel::Warn), LogLevel::Error));
    assert!(level_enabled(Some(LogLevel::Warn), LogLevel::Warn));
    assert!(!level_enabled(Some(LogLevel::Warn), LogLevel::Info));
    assert!(!level_enabled(Some(LogLevel::Error), LogLevel::Warn));
    assert!(level_enabled(Some(LogLevel::Trace), LogLevel::Debug));
    assert!(!level_enabled(None, LogLevel::Error));
}
