//! Decisions at the input boundary: glob detection, log format sniffing, prefetch batches.
use vstd::prelude::*;
use vstd::string::StringSliceAdditionalSpecFns;

verus! {

/// Which parser a log file needs.
#[derive(Clone, Copy, Debug, PartialEq, Eq)]
pub enum InputFormat {
    /// The server's SQL log.
    SqlLog,
    /// A client driver's log, whose records start with `[`.
    DriverLog,
}

/// The byte is one of `*`, `?`, `[`.
pub open spec fn is_glob_byte(b: u8) -> bool {
    b == 42u8 || b == 63u8 || b == 91u8
}

/// Whether an input names files by a glob pattern: it contains `*`, `?` or `[`.
pub fn is_glob_pattern(input: &str) -> (b: bool)
    ensures
        b == exists|i: int| 0 <= i < input.spec_bytes().len() && #[trigger] is_glob_byte(input.spec_bytes()[i]),
{
    let bytes = input.as_bytes();
    let n = bytes.len();
    let mut i: usize = 0;
    while i < n
        invariant
            n == bytes@.len(),
            bytes@ == input.spec_bytes(),
            i <= n,
            forall|j: int| 0 <= j < i ==> !#[trigger] is_glob_byte(bytes@[j]),
        decreases n - i,
    {
        if bytes[i] == 42u8 || bytes[i] == 63u8 || bytes[i] == 91u8 {
            assert(is_glob_byte(bytes@[i as int]));
            return true;
        }
        i = i + 1;
    }
    false
}

/// ASCII whitespace as `u8::is_ascii_whitespace` defines it: space, tab, line feed,
/// form feed, carriage return.
pub open spec fn is_ascii_space(b: u8) -> bool {
    b == 32u8 || b == 9u8 || b == 10u8 || b == 12u8 || b == 13u8
}

/// The format a line shows: none for a blank line; a driver log when its first
/// non-blank byte is `[`; the SQL log otherwise.
pub open spec fn line_format_of(line: Seq<u8>) -> Option<InputFormat> {
    if forall|i: int| 0 <= i < line.len() ==> #[trigger] is_ascii_space(line[i]) {
        None
    } else {
        let first = choose|i: int|
            0 <= i < line.len() && !is_ascii_space(#[trigger] line[i]) && forall|j: int|
                0 <= j < i ==> is_ascii_space(#[trigger] line[j]);
        if line[first] == 91u8 { Some(InputFormat::DriverLog) } else { Some(InputFormat::SqlLog) }
    }
}

/// The format a line of a log file shows (see [`line_format_of`]); a file whose lines
/// are all blank is read as an SQL log.
pub fn line_format(line: &[u8]) -> (f: Option<InputFormat>)
    ensures
        f == line_format_of(line@),
{
    let n = line.len();
    let mut i: usize = 0;
    while i < n
        invariant
            n == line@.len(),
            i <= n,
            forall|j: int| 0 <= j < i ==> #[trigger] is_ascii_space(line@[j]),
        decreases n - i,
    {
        let b = line[i];
        if !(b == 32u8 || b == 9u8 || b == 10u8 || b == 12u8 || b == 13u8) {
            proof {
                assert(!is_ascii_space(line@[i as int]));
                let first = choose|k: int|
                    0 <= k < line@.len() && !is_ascii_space(#[trigger] line@[k]) && forall|j: int|
                        0 <= j < k ==> is_ascii_space(#[trigger] line@[j]);
                assert(0 <= first < line@.len() && !is_ascii_space(line@[first]) && forall|j: int|
                    0 <= j < first ==> is_ascii_space(#[trigger] line@[j]));
                if first < i {
                    assert(is_ascii_space(line@[first]));
                }
                if first > i {
                    assert(is_ascii_space(line@[i as int]));
                }
            }
            if b == 91u8 {
                return Some(InputFormat::DriverLog);
            } else {
                return Some(InputFormat::SqlLog);
            }
        }
        i = i + 1;
    }
    None
}

/// Records per prefetched batch.
pub const PREFETCH_BATCH_RECORDS: usize = 512;

/// Estimated bytes per prefetched batch (1 MiB).
pub const PREFETCH_BATCH_BYTES: usize = 1048576;

/// Whether a prefetch batch is full and should be handed to the consumer.
pub fn prefetch_batch_full(records: usize, bytes: usize) -> (b: bool)
    ensures
        b == (records >= PREFETCH_BATCH_RECORDS || bytes >= PREFETCH_BATCH_BYTES),
{
    records >= PREFETCH_BATCH_RECORDS || bytes >= PREFETCH_BATCH_BYTES
}

} // verus!
