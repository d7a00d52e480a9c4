//! Structured errors, their severity and accumulated run statistics.
use crate::text::{debug_strings, debug_text_of_strings, decimal, decimal_text, path_display, string_views};
use std::path::PathBuf;
use vstd::prelude::*;

verus! {

/// Error severity for fatal/non-fatal classification.
#[derive(Debug, Clone, Copy, PartialEq, Eq, Structural)]
pub enum ErrorSeverity {
    Warning,
    Error,
    Critical,
}

/// The text a severity is shown as.
pub open spec fn severity_text(s: ErrorSeverity) -> Seq<char> {
    match s {
        ErrorSeverity::Warning => "WARNING"@,
        ErrorSeverity::Error => "ERROR"@,
        ErrorSeverity::Critical => "CRITICAL"@,
    }
}

impl ErrorSeverity {
    /// The text the severity is shown as (`WARNING`, `ERROR`, `CRITICAL`).
    pub fn to_string(&self) -> (s: String)
        ensures
            s@ == severity_text(*self),
    {
        match self {
            ErrorSeverity::Warning => "WARNING".to_owned(),
            ErrorSeverity::Error => "ERROR".to_owned(),
            ErrorSeverity::Critical => "CRITICAL".to_owned(),
        }
    }
}

} // verus!

verus! {

/// Accumulated error statistics for a processing run.
#[derive(Debug, Clone)]
pub struct ErrorStats {
    pub total_errors: usize,
    pub parse_errors: usize,
    pub export_errors: usize,
    pub fatal_error: Option<String>,
}

impl Default for ErrorStats {
    fn default() -> (s: Self)
        ensures
            s.total_errors == 0,
            s.parse_errors == 0,
            s.export_errors == 0,
            s.fatal_error is None,
    {
        ErrorStats { total_errors: 0, parse_errors: 0, export_errors: 0, fatal_error: None }
    }
}

/// The fatal message that survives a merge: the receiver's, or else the other's.
pub open spec fn merged_fatal(mine: Option<String>, theirs: Option<String>) -> Option<Seq<char>> {
    match mine {
        Some(m) => Some(m@),
        None => match theirs {
            Some(t) => Some(t@),
            None => None,
        },
    }
}

/// The view of an optional message.
pub open spec fn opt_text(o: Option<String>) -> Option<Seq<char>> {
    match o {
        Some(m) => Some(m@),
        None => None,
    }
}

impl ErrorStats {
    pub fn has_errors(&self) -> (b: bool)
        ensures
            b == (self.total_errors > 0),
    {
        self.total_errors > 0
    }

    pub fn has_fatal(&self) -> (b: bool)
        ensures
            b == self.fatal_error is Some,
    {
        self.fatal_error.is_some()
    }

    pub fn add_parse_error(&mut self)
        requires
            old(self).total_errors < usize::MAX,
            old(self).parse_errors < usize::MAX,
        ensures
            final(self).total_errors == old(self).total_errors + 1,
            final(self).parse_errors == old(self).parse_errors + 1,
            final(self).export_errors == old(self).export_errors,
            final(self).fatal_error == old(self).fatal_error,
    {
        self.total_errors += 1;
        self.parse_errors += 1;
    }

    pub fn add_export_error(&mut self)
        requires
            old(self).total_errors < usize::MAX,
            old(self).export_errors < usize::MAX,
        ensures
            final(self).total_errors == old(self).total_errors + 1,
            final(self).export_errors == old(self).export_errors + 1,
            final(self).parse_errors == old(self).parse_errors,
            final(self).fatal_error == old(self).fatal_error,
    {
        self.total_errors += 1;
        self.export_errors += 1;
    }

    pub fn set_fatal(&mut self, msg: String)
        ensures
            final(self).fatal_error == Some(msg),
            final(self).total_errors == old(self).total_errors,
            final(self).parse_errors == old(self).parse_errors,
            final(self).export_errors == old(self).export_errors,
    {
        self.fatal_error = Some(msg);
    }

    pub fn merge(&mut self, other: &ErrorStats)
        requires
            old(self).total_errors + other.total_errors <= usize::MAX,
            old(self).parse_errors + other.parse_errors <= usize::MAX,
            old(self).export_errors + other.export_errors <= usize::MAX,
        ensures
            final(self).total_errors == old(self).total_errors + other.total_errors,
            final(self).parse_errors == old(self).parse_errors + other.parse_errors,
            final(self).export_errors == old(self).export_errors + other.export_errors,
            opt_text(final(self).fatal_error) == merged_fatal(old(self).fatal_error, other.fatal_error),
    {
        self.total_errors += other.total_errors;
        self.parse_errors += other.parse_errors;
        self.export_errors += other.export_errors;
        if self.fatal_error.is_none() {
            match &other.fatal_error {
                Some(m) => {
                    self.fatal_error = Some(m.clone());
                },
                None => {},
            }
        }
    }
}

/// Merging in statistics that hold nothing changes nothing, and a fatal message
/// already held is never replaced by a later one.
pub proof fn lemma_merge_laws(a: ErrorStats, b: ErrorStats)
    ensures
        (b.total_errors == 0 && b.parse_errors == 0 && b.export_errors == 0 && b.fatal_error is None)
            ==> (a.total_errors + b.total_errors == a.total_errors
                && a.parse_errors + b.parse_errors == a.parse_errors
                && a.export_errors + b.export_errors == a.export_errors
                && merged_fatal(a.fatal_error, b.fatal_error) == opt_text(a.fatal_error)),
        a.fatal_error is Some ==> merged_fatal(a.fatal_error, b.fatal_error) == opt_text(a.fatal_error),
{
}

#[derive(Debug)]
pub enum Error {
    Config(ConfigError),
    File(FileError),
    Parser(ParserError),
    Export(ExportError),
    Io(std::io::Error),
    Interrupted,
}

#[derive(Debug)]
pub enum ConfigError {
    NotFound(PathBuf),
    ParseFailed { path: PathBuf, reason: String },
    InvalidLogLevel { level: String, valid_levels: Vec<String> },
    InvalidValue { field: String, value: String, reason: String },
    NoExporters,
}

#[derive(Debug)]
pub enum FileError {
    AlreadyExists { path: PathBuf },
    WriteFailed { path: PathBuf, reason: String },
    CreateDirectoryFailed { path: PathBuf, reason: String },
}

#[derive(Debug)]
pub enum ParserError {
    PathNotFound { path: PathBuf },
    InvalidPath { path: PathBuf, reason: String, line_number: Option<u64> },
    ReadDirFailed { path: PathBuf, reason: String },
    NoFilesFound { inputs: Vec<String> },
}

#[derive(Debug)]
pub enum ExportError {
    /// A file write failed (CSV, error log and every other file exporter).
    WriteFailed { path: PathBuf, reason: String },
    /// A SQLite operation failed.
    DatabaseFailed { reason: String },
}

/// Whether an error stops the run.
pub open spec fn spec_is_fatal(e: &Error) -> bool {
    match e {
        Error::Config(_) | Error::Io(_) | Error::Interrupted => true,
        Error::File(f) => f is AlreadyExists || f is CreateDirectoryFailed,
        Error::Parser(p) => p is ReadDirFailed,
        Error::Export(x) => x is DatabaseFailed,
    }
}

/// The severity an error is reported with.
pub open spec fn spec_severity(e: &Error) -> ErrorSeverity {
    match e {
        Error::Config(_) | Error::Io(_) | Error::Interrupted => ErrorSeverity::Critical,
        Error::File(f) => if f is WriteFailed {
            ErrorSeverity::Error
        } else {
            ErrorSeverity::Critical
        },
        Error::Parser(_) => ErrorSeverity::Warning,
        Error::Export(x) => if x is WriteFailed {
            ErrorSeverity::Error
        } else {
            ErrorSeverity::Critical
        },
    }
}

/// The hint shown to the user for an error.
pub open spec fn spec_suggestion(e: &Error) -> Seq<char> {
    match e {
        Error::Config(c) => match c {
            ConfigError::NotFound(_) => "Create a config file with 'sqllog2db init' or check the file path."@,
            ConfigError::ParseFailed { .. } => "Check TOML syntax in the configuration file."@,
            ConfigError::InvalidLogLevel { .. } => "Valid log levels: error, warn, info, debug, trace."@,
            ConfigError::InvalidValue { .. } => "Check the field value in the configuration file."@,
            ConfigError::NoExporters => "Enable at least one exporter: [csv] or [sqlite]."@,
        },
        Error::File(f) => match f {
            FileError::AlreadyExists { .. } => "Use --force to overwrite, or choose a different output path."@,
            FileError::WriteFailed { .. } => "Check disk space and file permissions."@,
            FileError::CreateDirectoryFailed { .. } => "Check parent directory permissions."@,
        },
        Error::Parser(p) => match p {
            ParserError::PathNotFound { .. } => "Verify the log file exists at the specified path."@,
            ParserError::InvalidPath { .. } => "Check the path format or try an absolute path."@,
            ParserError::ReadDirFailed { .. } => "Check directory permissions."@,
            ParserError::NoFilesFound { .. } => "Verify the glob/path entries exist; ensure patterns match .log files in the current directory."@,
        },
        Error::Export(x) => match x {
            ExportError::WriteFailed { .. } => "Check disk space and output directory permissions."@,
            ExportError::DatabaseFailed { .. } => "Verify the SQLite database file is accessible."@,
        },
        Error::Io(_) => "Check filesystem permissions and disk space."@,
        Error::Interrupted => "Run was interrupted by user."@,
    }
}

impl Error {
    pub fn is_fatal(&self) -> (b: bool)
        ensures
            b == spec_is_fatal(self),
    {
        match self {
            Error::Config(_) | Error::Io(_) | Error::Interrupted => true,
            Error::File(e) => match e {
                FileError::AlreadyExists { .. } | FileError::CreateDirectoryFailed { .. } => true,
                FileError::WriteFailed { .. } => false,
            },
            Error::Parser(e) => match e {
                ParserError::ReadDirFailed { .. } => true,
                _ => false,
            },
            Error::Export(e) => match e {
                ExportError::DatabaseFailed { .. } => true,
                ExportError::WriteFailed { .. } => false,
            },
        }
    }

    pub fn severity(&self) -> (s: ErrorSeverity)
        ensures
            s == spec_severity(self),
    {
        match self {
            Error::Config(_) | Error::Io(_) | Error::Interrupted => ErrorSeverity::Critical,
            Error::File(e) => match e {
                FileError::WriteFailed { .. } => ErrorSeverity::Error,
                FileError::AlreadyExists { .. } | FileError::CreateDirectoryFailed { .. } => {
                    ErrorSeverity::Critical
                },
            },
            Error::Parser(_) => ErrorSeverity::Warning,
            Error::Export(e) => match e {
                ExportError::WriteFailed { .. } => ErrorSeverity::Error,
                ExportError::DatabaseFailed { .. } => ErrorSeverity::Critical,
            },
        }
    }

    pub fn suggestion(&self) -> (s: &str)
        ensures
            s@ == spec_suggestion(self),
    {
        match self {
            Error::Config(e) => match e {
                ConfigError::NotFound(_) => {
                    "Create a config file with 'sqllog2db init' or check the file path."
                },
                ConfigError::ParseFailed { .. } => "Check TOML syntax in the configuration file.",
                ConfigError::InvalidLogLevel { .. } => {
                    "Valid log levels: error, warn, info, debug, trace."
                },
                ConfigError::InvalidValue { .. } => {
                    "Check the field value in the configuration file."
                },
                ConfigError::NoExporters => "Enable at least one exporter: [csv] or [sqlite].",
            },
            Error::File(e) => match e {
                FileError::AlreadyExists { .. } => {
                    "Use --force to overwrite, or choose a different output path."
                },
                FileError::WriteFailed { .. } => "Check disk space and file permissions.",
                FileError::CreateDirectoryFailed { .. } => "Check parent directory permissions.",
            },
            Error::Parser(e) => match e {
                ParserError::PathNotFound { .. } => {
                    "Verify the log file exists at the specified path."
                },
                ParserError::InvalidPath { .. } => "Check the path format or try an absolute path.",
                ParserError::ReadDirFailed { .. } => "Check directory permissions.",
                ParserError::NoFilesFound { .. } => {
                    "Verify the glob/path entries exist; ensure patterns match .log files in the current directory."
                },
            },
            Error::Export(e) => match e {
                ExportError::WriteFailed { .. } => {
                    "Check disk space and output directory permissions."
                },
                ExportError::DatabaseFailed { .. } => {
                    "Verify the SQLite database file is accessible."
                },
            },
            Error::Io(_) => "Check filesystem permissions and disk space.",
            Error::Interrupted => "Run was interrupted by user.",
        }
    }
}

/// An error reported as critical always stops the run; the one fatal error that is
/// not critical is a directory that could not be read, which is only a warning.
pub proof fn lemma_critical_errors_are_fatal(e: &Error)
    ensures
        spec_severity(e) == ErrorSeverity::Critical ==> spec_is_fatal(e),
        spec_is_fatal(e) ==> (spec_severity(e) == ErrorSeverity::Critical || e matches Error::Parser(ParserError::ReadDirFailed { .. })),
{
}

/// The text after an invalid path's reason: the line it was found on, if known.
pub open spec fn line_suffix(line_number: Option<u64>) -> Seq<char> {
    match line_number {
        Some(n) => " (line "@ + decimal(n as int) + ")"@,
        None => Seq::empty(),
    }
}

/// Whether `s` begins with `prefix`.
pub open spec fn starts_with(s: Seq<char>, prefix: Seq<char>) -> bool {
    prefix.len() <= s.len() && s.subrange(0, prefix.len() as int) == prefix
}

/// Whether `s` ends with `suffix`.
pub open spec fn ends_with(s: Seq<char>, suffix: Seq<char>) -> bool {
    suffix.len() <= s.len() && s.subrange(s.len() - suffix.len(), s.len() as int) == suffix
}

impl ParserError {
    /// The message of the error, as it is shown to the user.
    pub fn message(&self) -> (s: String)
        ensures
            match self {
                ParserError::PathNotFound { .. } => starts_with(s@, "Path not found: "@),
                ParserError::InvalidPath { reason, line_number, .. } => starts_with(s@, "Invalid path "@)
                    && ends_with(s@, ": "@ + reason@ + line_suffix(*line_number)),
                ParserError::ReadDirFailed { reason, .. } => starts_with(s@, "Failed to read directory "@)
                    && ends_with(s@, ": "@ + reason@),
                ParserError::NoFilesFound { inputs } => s@ == "No log files found matching inputs: "@
                    + debug_text_of_strings(string_views(inputs@)),
            },
    {
        match self {
            ParserError::PathNotFound { path } => {
                let mut s = "Path not found: ".to_owned();
                let ghost pre = s@;
                let p = path_display(path);
                s.append(p.as_str());
                proof {
                    assert(s@ =~= pre + p@);
                    assert(s@.subrange(0, pre.len() as int) =~= pre);
                }
                s
            },
            ParserError::InvalidPath { path, reason, line_number } => {
                let mut s = "Invalid path ".to_owned();
                let ghost pre = s@;
                let p = path_display(path);
                s.append(p.as_str());
                let ghost head = s@;
                let mut tail = ": ".to_owned();
                tail.append(reason.as_str());
                let ghost base = tail@;
                match line_number {
                    Some(n) => {
                        let mut suffix = " (line ".to_owned();
                        let d = decimal_text(*n as i128);
                        suffix.append(d.as_str());
                        suffix.append(")");
                        tail.append(suffix.as_str());
                        assert(suffix@ =~= line_suffix(*line_number));
                    },
                    None => {
                        assert(tail@ =~= base + line_suffix(*line_number));
                    },
                }
                s.append(tail.as_str());
                proof {
                    assert(s@ =~= head + tail@);
                    assert(s@.subrange(0, pre.len() as int) =~= pre);
                    assert(s@.subrange(s@.len() - tail@.len(), s@.len() as int) =~= tail@);
                }
                s
            },
            ParserError::ReadDirFailed { path, reason } => {
                let mut s = "Failed to read directory ".to_owned();
                let ghost pre = s@;
                let p = path_display(path);
                s.append(p.as_str());
                let ghost head = s@;
                let mut tail = ": ".to_owned();
                tail.append(reason.as_str());
                s.append(tail.as_str());
                proof {
                    assert(s@ =~= head + tail@);
                    assert(s@.subrange(0, pre.len() as int) =~= pre);
                    assert(s@.subrange(s@.len() - tail@.len(), s@.len() as int) =~= tail@);
                }
                s
            },
            ParserError::NoFilesFound { inputs } => {
                let mut s = "No log files found matching inputs: ".to_owned();
                let d = debug_strings(inputs);
                s.append(d.as_str());
                s
            },
        }
    }
}

} // verus!
