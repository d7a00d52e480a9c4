//! Structured errors, severity and bounded run statistics of the export pipeline.
use std::path::PathBuf;
use vstd::prelude::*;

pub use crate::error::{ConfigError, ErrorSeverity, FileError, ParserError};

verus! {

#[derive(Debug)]
pub enum Error {
    Config(ConfigError),
    File(FileError),
    Parser(ParserError),
    Export(ExportError),
    Io(std::io::Error),
    Interrupted,
}

#[derive(Debug)]
pub enum ExportError {
    /// A file write failed (CSV, error log and every other file exporter).
    WriteFailed { path: PathBuf, reason: String },
    /// An export error that cannot be recovered from.
    Fatal { reason: String },
}

/// Whether an error stops the run.
pub open spec fn spec_is_fatal(e: &Error) -> bool {
    match e {
        Error::Config(_) | Error::Io(_) | Error::Interrupted => true,
        Error::File(f) => f is AlreadyExists || f is CreateDirectoryFailed,
        Error::Parser(p) => p is ReadDirFailed,
        Error::Export(x) => x is Fatal,
    }
}

/// The severity an error is reported with.
pub open spec fn spec_severity(e: &Error) -> ErrorSeverity {
    match e {
        Error::Config(_) | Error::Io(_) | Error::Interrupted => ErrorSeverity::Critical,
        Error::File(f) => if f is WriteFailed {
            ErrorSeverity::Error
        } else {
            ErrorSeverity::Critical
        },
        Error::Parser(_) => ErrorSeverity::Warning,
        Error::Export(x) => if x is WriteFailed {
            ErrorSeverity::Error
        } else {
            ErrorSeverity::Critical
        },
    }
}

/// The hint shown to the user for an error.
pub open spec fn spec_suggestion(e: &Error) -> Seq<char> {
    match e {
        Error::Config(c) => match c {
            ConfigError::NotFound(_) => "Create a config file with 'sqllog2db init' or check the file path."@,
            ConfigError::ParseFailed { .. } => "Check TOML syntax in the configuration file."@,
            ConfigError::InvalidLogLevel { .. } => "Valid log levels: error, warn, info, debug, trace."@,
            ConfigError::InvalidValue { .. } => "Check the field value in the configuration file."@,
            ConfigError::NoExporters => "Enable at least one exporter: [exporter.parquet] or [exporter.csv]."@,
        },
        Error::File(f) => match f {
            FileError::AlreadyExists { .. } => "Use --force to overwrite, or choose a different output path."@,
            FileError::WriteFailed { .. } => "Check disk space and file permissions."@,
            FileError::CreateDirectoryFailed { .. } => "Check parent directory permissions."@,
        },
        Error::Parser(p) => match p {
            ParserError::PathNotFound { .. } => "Verify the log file exists at the specified path."@,
            ParserError::InvalidPath { .. } => "Check the path format or try an absolute path."@,
            ParserError::ReadDirFailed { .. } => "Check directory permissions."@,
            ParserError::NoFilesFound { .. } => "Verify the glob/path entries exist; ensure patterns match .log files in the current directory."@,
        },
        Error::Export(x) => match x {
            ExportError::WriteFailed { .. } => "Check disk space and output directory permissions."@,
            ExportError::Fatal { .. } => "Check the output file and export configuration."@,
        },
        Error::Io(_) => "Check filesystem permissions and disk space."@,
        Error::Interrupted => "Run was interrupted by user."@,
    }
}

impl Error {
    pub fn is_fatal(&self) -> (b: bool)
        ensures
            b == spec_is_fatal(self),
    {
        match self {
            Error::Config(_) | Error::Io(_) | Error::Interrupted => true,
            Error::File(e) => match e {
                FileError::AlreadyExists { .. } | FileError::CreateDirectoryFailed { .. } => true,
                FileError::WriteFailed { .. } => false,
            },
            Error::Parser(e) => match e {
                ParserError::ReadDirFailed { .. } => true,
                _ => false,
            },
            Error::Export(e) => match e {
                ExportError::Fatal { .. } => true,
                ExportError::WriteFailed { .. } => false,
            },
        }
    }

    pub fn severity(&self) -> (s: ErrorSeverity)
        ensures
            s == spec_severity(self),
    {
        match self {
            Error::Config(_) | Error::Io(_) | Error::Interrupted => ErrorSeverity::Critical,
            Error::File(e) => match e {
                FileError::WriteFailed { .. } => ErrorSeverity::Error,
                FileError::AlreadyExists { .. } | FileError::CreateDirectoryFailed { .. } => {
                    ErrorSeverity::Critical
                },
            },
            Error::Parser(_) => ErrorSeverity::Warning,
            Error::Export(e) => match e {
                ExportError::WriteFailed { .. } => ErrorSeverity::Error,
                ExportError::Fatal { .. } => ErrorSeverity::Critical,
            },
        }
    }

    pub fn suggestion(&self) -> (s: &str)
        ensures
            s@ == spec_suggestion(self),
    {
        match self {
            Error::Config(e) => match e {
                ConfigError::NotFound(_) => {
                    "Create a config file with 'sqllog2db init' or check the file path."
                },
                ConfigError::ParseFailed { .. } => "Check TOML syntax in the configuration file.",
                ConfigError::InvalidLogLevel { .. } => {
                    "Valid log levels: error, warn, info, debug, trace."
                },
                ConfigError::InvalidValue { .. } => {
                    "Check the field value in the configuration file."
                },
                ConfigError::NoExporters => {
                    "Enable at least one exporter: [exporter.parquet] or [exporter.csv]."
                },
            },
            Error::File(e) => match e {
                FileError::AlreadyExists { .. } => {
                    "Use --force to overwrite, or choose a different output path."
                },
                FileError::WriteFailed { .. } => "Check disk space and file permissions.",
                FileError::CreateDirectoryFailed { .. } => "Check parent directory permissions.",
            },
            Error::Parser(e) => match e {
                ParserError::PathNotFound { .. } => {
                    "Verify the log file exists at the specified path."
                },
                ParserError::InvalidPath { .. } => "Check the path format or try an absolute path.",
                ParserError::ReadDirFailed { .. } => "Check directory permissions.",
                ParserError::NoFilesFound { .. } => {
                    "Verify the glob/path entries exist; ensure patterns match .log files in the current directory."
                },
            },
            Error::Export(e) => match e {
                ExportError::WriteFailed { .. } => {
                    "Check disk space and output directory permissions."
                },
                ExportError::Fatal { .. } => "Check the output file and export configuration.",
            },
            Error::Io(_) => "Check filesystem permissions and disk space.",
            Error::Interrupted => "Run was interrupted by user.",
        }
    }
}

/// An error reported as critical always stops the run; the one fatal error that is
/// not critical is a directory that could not be read, which is only a warning.
pub proof fn lemma_critical_errors_are_fatal(e: &Error)
    ensures
        spec_severity(e) == ErrorSeverity::Critical ==> spec_is_fatal(e),
        spec_is_fatal(e) ==> (spec_severity(e) == ErrorSeverity::Critical || e matches Error::Parser(ParserError::ReadDirFailed { .. })),
{
}

/// The classification of a parse error.
#[derive(Debug, Clone, Copy, PartialEq, Eq, Hash, Structural)]
pub enum ErrorKind {
    EncodingError,
    FieldMissing,
    ParseFailed,
}

/// The name a parse error kind is written as in the error log.
pub open spec fn kind_text(k: ErrorKind) -> Seq<char> {
    match k {
        ErrorKind::EncodingError => "encoding_error"@,
        ErrorKind::FieldMissing => "field_missing"@,
        ErrorKind::ParseFailed => "parse_failed"@,
    }
}

impl ErrorKind {
    pub fn kind_display(self) -> (s: &'static str)
        ensures
            s@ == kind_text(self),
    {
        match self {
            ErrorKind::EncodingError => "encoding_error",
            ErrorKind::FieldMissing => "field_missing",
            ErrorKind::ParseFailed => "parse_failed",
        }
    }
}

/// The details of one parse error.
#[derive(Debug)]
pub struct ParseErrorRecord {
    pub line_number: u64,
    pub raw_truncated: String,
    pub kind: ErrorKind,
}

impl Clone for ParseErrorRecord {
    fn clone(&self) -> (r: Self)
        ensures
            r == *self,
    {
        ParseErrorRecord {
            line_number: self.line_number,
            raw_truncated: self.raw_truncated.clone(),
            kind: self.kind,
        }
    }
}

/// Parse errors counted by kind.
#[derive(Debug, Clone, Copy)]
pub struct ErrorKindCounts {
    pub encoding_error: u64,
    pub field_missing: u64,
    pub parse_failed: u64,
}

impl ErrorKindCounts {
    /// The count held for one kind.
    pub open spec fn count(self, k: ErrorKind) -> u64 {
        match k {
            ErrorKind::EncodingError => self.encoding_error,
            ErrorKind::FieldMissing => self.field_missing,
            ErrorKind::ParseFailed => self.parse_failed,
        }
    }

    /// No error of any kind.
    pub fn new() -> (c: Self)
        ensures
            forall|k: ErrorKind| #[trigger] c.count(k) == 0,
    {
        ErrorKindCounts { encoding_error: 0, field_missing: 0, parse_failed: 0 }
    }

    /// The count held for one kind (zero when none was counted).
    pub fn get(&self, k: ErrorKind) -> (n: u64)
        ensures
            n == self.count(k),
    {
        match k {
            ErrorKind::EncodingError => self.encoding_error,
            ErrorKind::FieldMissing => self.field_missing,
            ErrorKind::ParseFailed => self.parse_failed,
        }
    }

    /// Adds `n` errors of kind `k`.
    pub fn add(&mut self, k: ErrorKind, n: u64)
        requires
            old(self).count(k) + n <= u64::MAX,
        ensures
            final(self).count(k) == old(self).count(k) + n,
            forall|j: ErrorKind| j != k ==> #[trigger] final(self).count(j) == old(self).count(j),
    {
        match k {
            ErrorKind::EncodingError => self.encoding_error = self.encoding_error + n,
            ErrorKind::FieldMissing => self.field_missing = self.field_missing + n,
            ErrorKind::ParseFailed => self.parse_failed = self.parse_failed + n,
        }
    }
}

/// How many parse error records a run keeps at most.
pub const MAX_RECORDS: usize = 10_000;

/// Accumulated error statistics for a processing run.
#[derive(Debug, Clone)]
pub struct ErrorStats {
    pub total_errors: usize,
    pub parse_errors: usize,
    pub export_errors: usize,
    pub fatal_error: Option<String>,
    pub by_type: ErrorKindCounts,
    pub filtered_out: u64,
    pub parse_error_records: Vec<ParseErrorRecord>,
    /// Records exported successfully, over all files.
    pub records_exported: usize,
}

impl Default for ErrorStats {
    fn default() -> (s: Self)
        ensures
            s.total_errors == 0,
            s.parse_errors == 0,
            s.export_errors == 0,
            s.fatal_error is None,
            forall|k: ErrorKind| #[trigger] s.by_type.count(k) == 0,
            s.filtered_out == 0,
            s.parse_error_records@.len() == 0,
            s.records_exported == 0,
    {
        ErrorStats {
            total_errors: 0,
            parse_errors: 0,
            export_errors: 0,
            fatal_error: None,
            by_type: ErrorKindCounts::new(),
            filtered_out: 0,
            parse_error_records: Vec::new(),
            records_exported: 0,
        }
    }
}

/// The records kept after merging `theirs` into `mine`: all of `mine`, then as many
/// of `theirs`, in order, as fit under `MAX_RECORDS`.
pub open spec fn merged_records(mine: Seq<ParseErrorRecord>, theirs: Seq<ParseErrorRecord>) -> Seq<ParseErrorRecord> {
    if mine.len() >= MAX_RECORDS {
        mine
    } else if theirs.len() <= MAX_RECORDS - mine.len() {
        mine + theirs
    } else {
        mine + theirs.take(MAX_RECORDS - mine.len())
    }
}

/// Appends as many of `theirs`, in order, as fit under `MAX_RECORDS`.
fn append_records_capped(mine: &mut Vec<ParseErrorRecord>, theirs: &Vec<ParseErrorRecord>)
    ensures
        final(mine)@ == merged_records(old(mine)@, theirs@),
{
    let remaining_cap = MAX_RECORDS.saturating_sub(mine.len());
    let take = if theirs.len() < remaining_cap {
        theirs.len()
    } else {
        remaining_cap
    };
    let ghost start = mine@;
    let mut i: usize = 0;
    while i < take
        invariant
            i <= take,
            take <= theirs@.len(),
            take == if start.len() >= MAX_RECORDS {
                0
            } else if theirs@.len() <= MAX_RECORDS - start.len() {
                theirs@.len() as int
            } else {
                MAX_RECORDS - start.len()
            },
            mine@ == start + theirs@.take(i as int),
        decreases take - i,
    {
        let rec = theirs[i].clone();
        mine.push(rec);
        i = i + 1;
        assert(mine@ =~= start + theirs@.take(i as int));
    }
    assert(theirs@.take(theirs@.len() as int) =~= theirs@);
}

impl ErrorStats {
    pub fn has_errors(&self) -> (b: bool)
        ensures
            b == (self.total_errors > 0),
    {
        self.total_errors > 0
    }

    pub fn has_fatal(&self) -> (b: bool)
        ensures
            b == self.fatal_error is Some,
    {
        self.fatal_error.is_some()
    }

    pub fn add_parse_error(&mut self)
        requires
            old(self).total_errors < usize::MAX,
            old(self).parse_errors < usize::MAX,
        ensures
            *final(self) == (ErrorStats {
                total_errors: (old(self).total_errors + 1) as usize,
                parse_errors: (old(self).parse_errors + 1) as usize,
                ..*old(self)
            }),
    {
        self.total_errors += 1;
        self.parse_errors += 1;
    }

    pub fn add_export_error(&mut self)
        requires
            old(self).total_errors < usize::MAX,
            old(self).export_errors < usize::MAX,
        ensures
            *final(self) == (ErrorStats {
                total_errors: (old(self).total_errors + 1) as usize,
                export_errors: (old(self).export_errors + 1) as usize,
                ..*old(self)
            }),
    {
        self.total_errors += 1;
        self.export_errors += 1;
    }

    pub fn set_fatal(&mut self, msg: String)
        ensures
            *final(self) == (ErrorStats { fatal_error: Some(msg), ..*old(self) }),
    {
        self.fatal_error = Some(msg);
    }

    /// Whether `other` can be merged in without a counter overflowing.
    pub fn can_merge(&self, other: &ErrorStats) -> (b: bool)
        ensures
            b == (self.total_errors + other.total_errors <= usize::MAX
                && self.parse_errors + other.parse_errors <= usize::MAX
                && self.export_errors + other.export_errors <= usize::MAX
                && (forall|k: ErrorKind| #[trigger] self.by_type.count(k) + other.by_type.count(k) <= u64::MAX)
                && self.filtered_out + other.filtered_out <= u64::MAX
                && self.records_exported + other.records_exported <= usize::MAX),
    {
        let kinds_fit = self.by_type.encoding_error <= u64::MAX - other.by_type.encoding_error
            && self.by_type.field_missing <= u64::MAX - other.by_type.field_missing
            && self.by_type.parse_failed <= u64::MAX - other.by_type.parse_failed;
        proof {
            if kinds_fit {
                assert forall|k: ErrorKind| #[trigger] self.by_type.count(k) + other.by_type.count(k) <= u64::MAX by {
                    match k {
                        ErrorKind::EncodingError => {},
                        ErrorKind::FieldMissing => {},
                        ErrorKind::ParseFailed => {},
                    }
                }
            } else {
                if self.by_type.encoding_error > u64::MAX - other.by_type.encoding_error {
                    assert(self.by_type.count(ErrorKind::EncodingError) + other.by_type.count(ErrorKind::EncodingError) > u64::MAX);
                } else if self.by_type.field_missing > u64::MAX - other.by_type.field_missing {
                    assert(self.by_type.count(ErrorKind::FieldMissing) + other.by_type.count(ErrorKind::FieldMissing) > u64::MAX);
                } else {
                    assert(self.by_type.count(ErrorKind::ParseFailed) + other.by_type.count(ErrorKind::ParseFailed) > u64::MAX);
                }
            }
        }
        self.total_errors <= usize::MAX - other.total_errors
            && self.parse_errors <= usize::MAX - other.parse_errors
            && self.export_errors <= usize::MAX - other.export_errors
            && kinds_fit
            && self.filtered_out <= u64::MAX - other.filtered_out
            && self.records_exported <= usize::MAX - other.records_exported
    }

    pub fn merge(&mut self, other: &ErrorStats)
        requires
            old(self).total_errors + other.total_errors <= usize::MAX,
            old(self).parse_errors + other.parse_errors <= usize::MAX,
            old(self).export_errors + other.export_errors <= usize::MAX,
            forall|k: ErrorKind| #[trigger] old(self).by_type.count(k) + other.by_type.count(k) <= u64::MAX,
            old(self).filtered_out + other.filtered_out <= u64::MAX,
            old(self).records_exported + other.records_exported <= usize::MAX,
        ensures
            final(self).total_errors == old(self).total_errors + other.total_errors,
            final(self).parse_errors == old(self).parse_errors + other.parse_errors,
            final(self).export_errors == old(self).export_errors + other.export_errors,
            crate::error::opt_text(final(self).fatal_error)
                == crate::error::merged_fatal(old(self).fatal_error, other.fatal_error),
            forall|k: ErrorKind| #[trigger] final(self).by_type.count(k) == old(self).by_type.count(k) + other.by_type.count(k),
            final(self).filtered_out == old(self).filtered_out + other.filtered_out,
            final(self).records_exported == old(self).records_exported + other.records_exported,
            final(self).parse_error_records@ == merged_records(old(self).parse_error_records@, other.parse_error_records@),
    {
        self.total_errors += other.total_errors;
        self.parse_errors += other.parse_errors;
        self.export_errors += other.export_errors;
        if self.fatal_error.is_none() {
            match &other.fatal_error {
                Some(m) => {
                    self.fatal_error = Some(m.clone());
                },
                None => {},
            }
        }
        self.by_type.add(ErrorKind::EncodingError, other.by_type.encoding_error);
        self.by_type.add(ErrorKind::FieldMissing, other.by_type.field_missing);
        self.by_type.add(ErrorKind::ParseFailed, other.by_type.parse_failed);
        self.filtered_out += other.filtered_out;
        self.records_exported += other.records_exported;
        append_records_capped(&mut self.parse_error_records, &other.parse_error_records);
    }
}

/// A merge never keeps more than `MAX_RECORDS` parse error records, unless the
/// receiver already held more; and the records already held are never dropped.
pub proof fn lemma_merged_records_bounded(mine: Seq<ParseErrorRecord>, theirs: Seq<ParseErrorRecord>)
    ensures
        merged_records(mine, theirs).len() <= if mine.len() > MAX_RECORDS { mine.len() as int } else { MAX_RECORDS as int },
        merged_records(mine, theirs).take(mine.len() as int) == mine,
{
    assert(merged_records(mine, theirs).take(mine.len() as int) =~= mine);
}

} // verus!
