use dm_database_sqllog2db::error::{ConfigError, Error, ErrorSeverity, ErrorStats, ExportError, FileError, ParserError};
use std::path::PathBuf;

#[test]
fn test_no_files_found_display_contains_inputs() {
    let err = ParserError::NoFilesFound {
        inputs: vec!["a.log".into(), "b/*.log".into()],
    };
    let display = err.message();
    assert!(display.contains("a.log"), "Display should contain 'a.log', got: {display}");
    assert!(display.contains("b/*.log"), "Display should contain 'b/*.log', got: {display}");
}

#[test]
fn test_no_files_found_suggestion_non_empty() {
    let err = Error::Parser(ParserError::NoFilesFound { inputs: vec!["x".into()] });
    let suggestion = err.suggestion();
    assert!(!suggestion.is_empty(), "suggestion() should not be empty for NoFilesFound");
    assert!(suggestion.contains("glob"), "suggestion() should contain 'glob', got: {suggestion}");
}

#[test]
fn test_no_files_found_not_fatal() {
    let err = Error::Parser(ParserError::NoFilesFound { inputs: vec!["x".into()] });
    assert!(!err.is_fatal(), "NoFilesFound should not be fatal");
    assert_eq!(err.severity(), ErrorSeverity::Warning, "NoFilesFound should have Warning severity");
}

#[test]
fn test_config_not_found_is_fatal_critical_suggestion() {
    let err = Error::Config(ConfigError::NotFound(PathBuf::from("/no/file")));
    assert!(err.is_fatal());
    assert_eq!(err.severity(), ErrorSeverity::Critical);
    assert!(err.suggestion().contains("init"), "got: {}", err.suggestion());
}

#[test]
fn test_config_parse_failed_suggestion_mentions_toml() {
    let err = Error::Config(ConfigError::ParseFailed {
        path: PathBuf::from("/cfg.toml"),
        reason: "unexpected key".into(),
    });
    assert!(err.is_fatal());
    assert_eq!(err.severity(), ErrorSeverity::Critical);
    assert!(err.suggestion().contains("TOML"), "got: {}", err.suggestion());
}

#[test]
fn test_config_invalid_log_level_suggestion() {
    let err = Error::Config(ConfigError::InvalidLogLevel {
        level: "verbose".into(),
        valid_levels: vec!["info".into(), "debug".into()],
    });
    assert!(err.is_fatal(), "ConfigError::InvalidLogLevel should be fatal");
    assert!(err.suggestion().contains("log levels"), "got: {}", err.suggestion());
}

#[test]
fn test_config_invalid_value_suggestion() {
    let err = Error::Config(ConfigError::InvalidValue {
        field: "buffer_size".into(),
        value: "-1".into(),
        reason: "must be positive".into(),
    });
    assert!(err.is_fatal(), "ConfigError::InvalidValue should be fatal");
    assert!(err.suggestion().contains("field value"), "got: {}", err.suggestion());
}

#[test]
fn test_config_no_exporters_suggestion() {
    let err = Error::Config(ConfigError::NoExporters);
    assert!(err.is_fatal(), "ConfigError::NoExporters should be fatal");
    assert!(err.suggestion().contains("exporter"), "got: {}", err.suggestion());
}

#[test]
fn test_file_already_exists_is_fatal() {
    let err = Error::File(FileError::AlreadyExists { path: PathBuf::from("/out.csv") });
    assert!(err.is_fatal());
    assert_eq!(err.severity(), ErrorSeverity::Critical);
    assert!(err.suggestion().contains("--force"), "got: {}", err.suggestion());
}

#[test]
fn test_file_write_failed_not_fatal_error_severity() {
    let err = Error::File(FileError::WriteFailed {
        path: PathBuf::from("/out.csv"),
        reason: "permission denied".into(),
    });
    assert!(!err.is_fatal());
    assert_eq!(err.severity(), ErrorSeverity::Error);
    assert!(err.suggestion().contains("disk space"), "got: {}", err.suggestion());
}

#[test]
fn test_file_create_directory_failed_is_fatal() {
    let err = Error::File(FileError::CreateDirectoryFailed {
        path: PathBuf::from("/no/dir"),
        reason: "permission denied".into(),
    });
    assert!(err.is_fatal());
    assert_eq!(err.severity(), ErrorSeverity::Critical);
    assert!(err.suggestion().contains("parent directory"), "got: {}", err.suggestion());
}

#[test]
fn test_export_write_failed_not_fatal_error_severity() {
    let err = Error::Export(ExportError::WriteFailed {
        path: PathBuf::from("/out.db"),
        reason: "disk full".into(),
    });
    assert!(!err.is_fatal());
    assert_eq!(err.severity(), ErrorSeverity::Error);
    assert!(err.suggestion().contains("disk space"), "got: {}", err.suggestion());
}

#[test]
fn test_export_database_failed_is_fatal_critical() {
    let err = Error::Export(ExportError::DatabaseFailed { reason: "locked".into() });
    assert!(err.is_fatal(), "ExportError::DatabaseFailed should be fatal");
    assert_eq!(err.severity(), ErrorSeverity::Critical);
    assert!(err.suggestion().contains("SQLite"), "got: {}", err.suggestion());
}

#[test]
fn test_io_error_is_fatal_critical() {
    let err = Error::Io(std::io::Error::other("test io error"));
    assert!(err.is_fatal(), "Error::Io should be fatal");
    assert_eq!(err.severity(), ErrorSeverity::Critical);
    assert!(err.suggestion().contains("filesystem"), "got: {}", err.suggestion());
}

#[test]
fn test_interrupted_is_fatal_critical() {
    let err = Error::Interrupted;
    assert!(err.is_fatal(), "Error::Interrupted should be fatal");
    assert_eq!(err.severity(), ErrorSeverity::Critical);
    assert!(err.suggestion().contains("interrupted"), "got: {}", err.suggestion());
}

#[test]
fn test_parser_path_not_found_suggestion() {
    let err = Error::Parser(ParserError::PathNotFound { path: PathBuf::from("/missing.log") });
    assert!(!err.is_fatal());
    assert_eq!(err.severity(), ErrorSeverity::Warning);
    assert!(err.suggestion().contains("log file exists"), "got: {}", err.suggestion());
}

#[test]
fn test_parser_invalid_path_suggestion() {
    let err = Error::Parser(ParserError::InvalidPath {
        path: PathBuf::from("/bad\0path"),
        reason: "null byte in path".into(),
        line_number: Some(42),
    });
    assert!(!err.is_fatal());
    assert!(err.suggestion().contains("path format"), "got: {}", err.suggestion());
}

#[test]
fn test_parser_read_dir_failed_is_fatal() {
    let err = Error::Parser(ParserError::ReadDirFailed {
        path: PathBuf::from("/locked/dir"),
        reason: "permission denied".into(),
    });
    assert!(err.is_fatal());
    assert!(err.suggestion().contains("directory permissions"), "got: {}", err.suggestion());
}

#[test]
fn test_error_severity_display_strings() {
    assert_eq!(ErrorSeverity::Warning.to_string(), "WARNING");
    assert_eq!(ErrorSeverity::Error.to_string(), "ERROR");
    assert_eq!(ErrorSeverity::Critical.to_string(), "CRITICAL");
}

#[test]
fn stats_merge_adds_counts_and_keeps_first_fatal() {
    let mut a = ErrorStats::default();
    a.add_parse_error();
    a.set_fatal("first".to_string());
    let mut b = ErrorStats::default();
    b.add_export_error();
    b.add_export_error();
    b.set_fatal("second".to_string());
    a.merge(&b);
    assert!(a.has_errors());
    assert!(a.has_fatal());
    assert_eq!(a.parse_errors, 1);
    assert_eq!(a.export_errors, 2);
    assert_eq!(a.total_errors, 3);
    assert_eq!(a.fatal_error.as_deref(), Some("first"));
}

#[test]
fn stats_default_has_no_errors() {
    let s = ErrorStats::default();
    assert!(!s.has_errors());
    assert!(!s.has_fatal());
}

#[test]
fn invalid_path_message_ends_with_reason_and_line() {
    let err = ParserError::InvalidPath {
        path: PathBuf::from("/x"),
        reason: "bad".into(),
        line_number: Some(7),
    };
    let msg = err.message();
    assert!(msg.starts_with("Invalid path "), "got: {msg}");
    assert!(msg.ends_with(": bad (line 7)"), "got: {msg}");
}

#[test]
fn path_not_found_message_names_the_path() {
    let err = ParserError::PathNotFound { path: PathBuf::from("/missing/app.log") };
    assert_eq!(err.message(), "Path not found: /missing/app.log");
}
