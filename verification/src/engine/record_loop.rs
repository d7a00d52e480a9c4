//! The per-record decisions of the export loop: what to do with a record, when the
//! export quota is reached, how an export result is counted, and when to look for an
//! interruption.
use crate::infrastructure::error::{spec_is_fatal, Error, ErrorKind, ErrorStats};
use vstd::prelude::*;

verus! {

/// What the loop does with one parsed record.
#[derive(Debug, PartialEq, Eq)]
pub enum RecordPlan {
    /// Neither exported nor needed for parameter substitution.
    Skip,
    /// Filtered out, but its parameters feed later records' normalization.
    ParamsOnly,
    /// Exported; `normalize` says whether its SQL is normalized first.
    Export { normalize: bool },
}

/// The plan of a record: a record that passes the filters is exported, normalized when
/// normalizing and either parameters are buffered or it has no tag; a filtered record
/// without a tag still feeds the parameter buffer when normalizing; anything else is
/// skipped.
pub open spec fn record_plan(passes: bool, do_normalize: bool, has_tag: bool, params_buffered: bool) -> RecordPlan {
    if passes {
        RecordPlan::Export { normalize: do_normalize && (params_buffered || !has_tag) }
    } else if do_normalize && !has_tag {
        RecordPlan::ParamsOnly
    } else {
        RecordPlan::Skip
    }
}

/// The plan of a record; see [`record_plan`].
pub fn plan_record(passes: bool, do_normalize: bool, has_tag: bool, params_buffered: bool) -> (p: RecordPlan)
    ensures
        p == record_plan(passes, do_normalize, has_tag, params_buffered),
{
    if passes {
        RecordPlan::Export { normalize: do_normalize && (params_buffered || !has_tag) }
    } else if do_normalize && !has_tag {
        RecordPlan::ParamsOnly
    } else {
        RecordPlan::Skip
    }
}

/// How the loop goes on after a record.
#[derive(Debug, PartialEq, Eq)]
pub enum ExportAction {
    /// Go on with the next record.
    Continue,
    /// The export quota is used up.
    BreakQuota,
    /// A fatal export error happened.
    BreakFatal,
}

/// The export state of one file: records exported so far and its error statistics.
pub struct FileLoop {
    pub records_in_file: usize,
    pub file_stats: ErrorStats,
}

impl FileLoop {
    /// Nothing exported yet, no errors.
    pub fn new() -> (l: Self)
        ensures
            l.records_in_file == 0,
            l.file_stats.total_errors == 0,
            l.file_stats.export_errors == 0,
            l.file_stats.parse_errors == 0,
            l.file_stats.filtered_out == 0,
            l.file_stats.fatal_error is None,
            forall|k: ErrorKind| #[trigger] l.file_stats.by_type.count(k) == 0,
            l.file_stats.parse_error_records@.len() == 0,
            l.file_stats.records_exported == 0,
    {
        FileLoop { records_in_file: 0, file_stats: ErrorStats::default() }
    }

    /// Counts a record the filters left out.
    pub fn filtered(&mut self)
        requires
            old(self).file_stats.filtered_out < u64::MAX,
        ensures
            final(self).file_stats == (ErrorStats {
                filtered_out: (old(self).file_stats.filtered_out + 1) as u64,
                ..old(self).file_stats
            }),
            final(self).records_in_file == old(self).records_in_file,
    {
        self.file_stats.filtered_out = self.file_stats.filtered_out + 1;
    }

    /// Whether the remaining quota (if any) is already used up by this file's exports.
    pub fn quota_reached(&self, remaining: Option<usize>) -> (b: bool)
        ensures
            b == (match remaining {
                Some(r) => self.records_in_file >= r,
                None => false,
            }),
    {
        match remaining {
            Some(r) => self.records_in_file >= r,
            None => false,
        }
    }

    /// Counts a successful export; the loop goes on.
    pub fn export_succeeded(&mut self) -> (a: ExportAction)
        requires
            old(self).records_in_file < usize::MAX,
        ensures
            a == ExportAction::Continue,
            final(self).records_in_file == old(self).records_in_file + 1,
            final(self).file_stats == old(self).file_stats,
    {
        self.records_in_file = self.records_in_file + 1;
        ExportAction::Continue
    }

    /// Counts a failed export: a fatal error is recorded with its message and stops the
    /// loop; any other error is counted and the loop goes on.
    pub fn export_failed(&mut self, err: &Error, message: String) -> (a: ExportAction)
        requires
            old(self).file_stats.total_errors < usize::MAX,
            old(self).file_stats.export_errors < usize::MAX,
        ensures
            final(self).records_in_file == old(self).records_in_file,
            spec_is_fatal(err) ==> a == ExportAction::BreakFatal && final(self).file_stats == (ErrorStats {
                fatal_error: Some(message),
                ..old(self).file_stats
            }),
            !spec_is_fatal(err) ==> a == ExportAction::Continue && final(self).file_stats == (ErrorStats {
                total_errors: (old(self).file_stats.total_errors + 1) as usize,
                export_errors: (old(self).file_stats.export_errors + 1) as usize,
                ..old(self).file_stats
            }),
    {
        if err.is_fatal() {
            self.file_stats.set_fatal(message);
            ExportAction::BreakFatal
        } else {
            self.file_stats.add_export_error();
            ExportAction::Continue
        }
    }
}

/// How often (in records) the loop looks at progress and interruption.
pub const TICK_INTERVAL: usize = 1024;

/// Whether the loop stops after a record it went on from: on an interruption seen at a
/// tick, which falls on every 1024th exported record for records that passed, and on
/// every 1024th processed record for filtered ones.
pub open spec fn stops_after(passes: bool, records_in_file: int, total_processed: int, interrupted: bool) -> bool {
    if passes {
        records_in_file != 0 && records_in_file % 1024 == 0 && interrupted
    } else {
        total_processed % 1024 == 0 && interrupted
    }
}

/// Whether the loop stops after a record; see [`stops_after`].
pub fn should_stop(passes: bool, records_in_file: usize, total_processed: usize, interrupted: bool) -> (b: bool)
    ensures
        b == stops_after(passes, records_in_file as int, total_processed as int, interrupted),
{
    if passes {
        records_in_file != 0 && records_in_file % TICK_INTERVAL == 0 && interrupted
    } else {
        total_processed % TICK_INTERVAL == 0 && interrupted
    }
}

} // verus!
