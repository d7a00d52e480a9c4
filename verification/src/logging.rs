//! Log level names.
use crate::error::{ConfigError, Error};
use vstd::prelude::*;

verus! {

/// How much the tool logs, from least to most.
#[derive(Clone, Copy, Debug, PartialEq, Eq)]
pub enum LogLevel {
    Error,
    Warn,
    Info,
    Debug,
    Trace,
}

/// The level names that the configuration accepts.
pub open spec fn level_names() -> Seq<Seq<char>> {
    seq!["trace"@, "debug"@, "info"@, "warn"@, "error"@]
}

/// The level a lower-case name stands for, if any.
pub open spec fn level_of_name(name: Seq<char>) -> Option<LogLevel> {
    if name == "trace"@ {
        Some(LogLevel::Trace)
    } else if name == "debug"@ {
        Some(LogLevel::Debug)
    } else if name == "info"@ {
        Some(LogLevel::Info)
    } else if name == "warn"@ {
        Some(LogLevel::Warn)
    } else if name == "error"@ {
        Some(LogLevel::Error)
    } else {
        None
    }
}

/// What `str::to_lowercase` gives for a text (Unicode lower case mapping).
pub uninterp spec fn lowercase_of(s: Seq<char>) -> Seq<char>;

/// `str::to_lowercase`.
#[verifier::external_body]
fn to_lowercase(s: &str) -> (r: String)
    ensures
        r@ == lowercase_of(s@),
{
    s.to_lowercase()
}

/// The accepted level names, as owned texts.
pub fn valid_level_names() -> (v: Vec<String>)
    ensures
        v@.map_values(|s: String| s@) == level_names(),
{
    let mut v: Vec<String> = Vec::new();
    v.push("trace".to_owned());
    v.push("debug".to_owned());
    v.push("info".to_owned());
    v.push("warn".to_owned());
    v.push("error".to_owned());
    assert(v@.map_values(|s: String| s@) =~= level_names());
    v
}

/// The level named by `level_str`, compared without regard to letter case; an unknown
/// name is a configuration error that carries the name and the accepted names.
pub fn parse_log_level(level_str: &str) -> (r: Result<LogLevel, Error>)
    ensures
        match level_of_name(lowercase_of(level_str@)) {
            Some(l) => r == Ok::<LogLevel, Error>(l),
            None => r matches Err(Error::Config(ConfigError::InvalidLogLevel { level, valid_levels }))
                && level@ == level_str@ && valid_levels@.map_values(|s: String| s@) == level_names(),
        },
{
    let lower = to_lowercase(level_str);
    if lower == "trace".to_owned() {
        Ok(LogLevel::Trace)
    } else if lower == "debug".to_owned() {
        Ok(LogLevel::Debug)
    } else if lower == "info".to_owned() {
        Ok(LogLevel::Info)
    } else if lower == "warn".to_owned() {
        Ok(LogLevel::Warn)
    } else if lower == "error".to_owned() {
        Ok(LogLevel::Error)
    } else {
        Err(Error::Config(ConfigError::InvalidLogLevel {
            level: level_str.to_owned(),
            valid_levels: valid_level_names(),
        }))
    }
}

/// The rank of a level: `Error` lowest, `Trace` highest.
pub open spec fn rank(l: LogLevel) -> int {
    match l {
        LogLevel::Error => 1,
        LogLevel::Warn => 2,
        LogLevel::Info => 3,
        LogLevel::Debug => 4,
        LogLevel::Trace => 5,
    }
}

fn level_rank(l: LogLevel) -> (r: u8)
    ensures
        r == rank(l),
{
    match l {
        LogLevel::Error => 1,
        LogLevel::Warn => 2,
        LogLevel::Info => 3,
        LogLevel::Debug => 4,
        LogLevel::Trace => 5,
    }
}

/// Whether a message of `level` is logged under the configured maximum (`None`: logging
/// off): nothing when off, and otherwise every level up to the maximum.
pub fn level_enabled(max: Option<LogLevel>, level: LogLevel) -> (b: bool)
    ensures
        b == (match max {
            None => false,
            Some(m) => rank(level) <= rank(m),
        }),
{
    match max {
        None => false,
        Some(m) => level_rank(level) <= level_rank(m),
    }
}

} // verus!
