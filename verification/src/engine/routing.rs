//! Which processing path a run takes, and how its results are put together.
use crate::infrastructure::error::{Error, ErrorStats};
use vstd::prelude::*;

verus! {

/// The facts about a run that choose its processing path.
#[derive(Clone, Copy, Debug)]
pub struct RunShape {
    /// Parallel tasks available.
    pub jobs: usize,
    /// Input files.
    pub file_count: usize,
    /// The input is standard input.
    pub is_stdin_pipe: bool,
    /// SQL normalization (parameter substitution) is on.
    pub do_normalize: bool,
    /// A CSV exporter is configured.
    pub has_csv: bool,
    /// An SQLite exporter is configured.
    pub has_sqlite: bool,
    /// The CSV exporter splits its output by rows per file.
    pub csv_splitting: bool,
    /// Transaction-level filters are configured.
    pub has_transaction_filters: bool,
}

/// A processing path.
#[derive(Clone, Copy, Debug, PartialEq, Eq)]
pub enum Route {
    /// Cut the single input file into pieces and export them to CSV in parallel.
    ChunkedCsv,
    /// Export several files to CSV in parallel.
    ParallelCsv,
    /// Export several files to SQLite in parallel.
    ParallelSqlite,
    /// Export file after file.
    Sequential,
}

/// A single CSV input may be cut into pieces: several jobs, one file that is not
/// standard input, no normalization (parameters refer across records), CSV output that
/// is not split by rows, and no transaction-level filters (transactions may cross pieces).
pub open spec fn spec_chunk_eligible(s: RunShape) -> bool {
    &&& s.jobs > 1
    &&& s.file_count == 1
    &&& !s.is_stdin_pipe
    &&& !s.do_normalize
    &&& s.has_csv
    &&& !s.csv_splitting
    &&& !s.has_transaction_filters
}

/// Whether a single CSV input may be cut into pieces; see [`spec_chunk_eligible`].
pub fn chunked_single_file_eligible(s: &RunShape) -> (b: bool)
    ensures
        b == spec_chunk_eligible(*s),
{
    if s.jobs <= 1 || s.file_count != 1 || s.is_stdin_pipe || s.do_normalize {
        return false;
    }
    if !s.has_csv {
        return false;
    }
    if s.csv_splitting {
        return false;
    }
    !s.has_transaction_filters
}

/// Several files with several jobs, not from standard input.
pub open spec fn multi_file(s: RunShape) -> bool {
    s.jobs > 1 && s.file_count > 1 && !s.is_stdin_pipe
}

/// The path when the input is not cut: several CSV files in parallel unless the CSV
/// output is split by rows (which needs one writer), several SQLite files in parallel,
/// and file after file otherwise.
pub open spec fn spec_route(s: RunShape) -> Route {
    if multi_file(s) && s.has_csv && !s.csv_splitting {
        Route::ParallelCsv
    } else if multi_file(s) && s.has_sqlite {
        Route::ParallelSqlite
    } else {
        Route::Sequential
    }
}

/// The path of a run whose input was not cut into pieces; see [`spec_route`].
pub fn route_processing(s: &RunShape) -> (r: Route)
    ensures
        r == spec_route(*s),
{
    let multi = s.jobs > 1 && s.file_count > 1 && !s.is_stdin_pipe;
    if multi && s.has_csv && s.csv_splitting {
    } else if multi && s.has_csv {
        return Route::ParallelCsv;
    }
    if multi && s.has_sqlite {
        return Route::ParallelSqlite;
    }
    Route::Sequential
}

/// Whether the run works in parallel: it cuts its single input, or it has several files
/// for parallel CSV (not split by rows) or SQLite export.
pub fn uses_parallel(s: &RunShape, will_chunk: bool) -> (b: bool)
    ensures
        b == (will_chunk || (multi_file(*s) && ((s.has_csv && !s.csv_splitting) || s.has_sqlite))),
{
    will_chunk || ((s.jobs > 1 && s.file_count > 1 && !s.is_stdin_pipe) && ((s.has_csv && !s.csv_splitting)
        || s.has_sqlite))
}

/// Whether a progress bar is shown: neither quiet nor verbose, and not in parallel.
pub fn shows_progress(quiet: bool, verbose: bool, use_parallel: bool) -> (b: bool)
    ensures
        b == (!quiet && !verbose && !use_parallel),
{
    !quiet && !verbose && !use_parallel
}

/// The number of parallel tasks for the pieces of a cut file: no more than the pieces.
pub fn chunk_jobs(jobs: usize, pieces: usize) -> (n: usize)
    ensures
        n == (if jobs < pieces { jobs } else { pieces }),
{
    if jobs < pieces { jobs } else { pieces }
}

/// The sum of some counts.
pub open spec fn total_of(counts: Seq<usize>) -> int
    decreases counts.len(),
{
    if counts.len() == 0 { 0 } else { total_of(counts.drop_last()) + counts.last() }
}

/// The sum of the per-file record counts.
pub fn total_records(counts: &[usize]) -> (t: usize)
    requires
        total_of(counts@) <= usize::MAX,
    ensures
        t == total_of(counts@),
{
    let n = counts.len();
    let mut t: usize = 0;
    let mut k: usize = 0;
    while k < n
        invariant
            n == counts@.len(),
            k <= n,
            total_of(counts@) <= usize::MAX,
            t == total_of(counts@.take(k as int)),
        decreases n - k,
    {
        proof {
            assert(counts@.take(k + 1).drop_last() =~= counts@.take(k as int));
            lemma_total_prefix_bounded(counts@, k + 1);
        }
        t = t + counts[k];
        k = k + 1;
    }
    proof {
        assert(counts@.take(n as int) =~= counts@);
    }
    t
}

/// A prefix of counts sums to no more than all of them.
proof fn lemma_total_prefix_bounded(counts: Seq<usize>, k: int)
    requires
        0 <= k <= counts.len(),
    ensures
        total_of(counts.take(k)) <= total_of(counts),
    decreases counts.len() - k,
{
    if k < counts.len() {
        lemma_total_prefix_bounded(counts, k + 1);
        assert(counts.take(k + 1).drop_last() =~= counts.take(k));
    } else {
        assert(counts.take(k) =~= counts);
    }
}

/// Ends a run: merges the processing statistics into the run's, records the exported
/// total, and answers the interruption error when the run was interrupted.
pub fn finish_run(run_stats: ErrorStats, stats: &ErrorStats, counts: &[usize], interrupted: bool) -> (r: Result<ErrorStats, Error>)
    requires
        run_stats.total_errors + stats.total_errors <= usize::MAX,
        run_stats.parse_errors + stats.parse_errors <= usize::MAX,
        run_stats.export_errors + stats.export_errors <= usize::MAX,
        run_stats.filtered_out + stats.filtered_out <= u64::MAX,
        forall|k: crate::infrastructure::error::ErrorKind| #[trigger] run_stats.by_type.count(k) + stats.by_type.count(k) <= u64::MAX,
        run_stats.records_exported + stats.records_exported <= usize::MAX,
        total_of(counts@) <= usize::MAX,
    ensures
        interrupted ==> r matches Err(Error::Interrupted),
        !interrupted ==> (r matches Ok(s) && s.records_exported == total_of(counts@)
            && s.total_errors == run_stats.total_errors + stats.total_errors
            && s.parse_errors == run_stats.parse_errors + stats.parse_errors
            && s.export_errors == run_stats.export_errors + stats.export_errors
            && crate::error::opt_text(s.fatal_error)
                == crate::error::merged_fatal(run_stats.fatal_error, stats.fatal_error)
            && (forall|k: crate::infrastructure::error::ErrorKind|
                #[trigger] s.by_type.count(k) == run_stats.by_type.count(k) + stats.by_type.count(k))
            && s.filtered_out == run_stats.filtered_out + stats.filtered_out
            && s.parse_error_records@ == crate::infrastructure::error::merged_records(
                run_stats.parse_error_records@, stats.parse_error_records@)),
{
    let mut run_stats = run_stats;
    run_stats.merge(stats);
    let total = total_records(counts);
    run_stats.records_exported = total;
    if interrupted {
        return Err(Error::Interrupted);
    }
    Ok(run_stats)
}

/// How one parallel task ended.
#[derive(Clone, Copy, Debug, PartialEq, Eq)]
pub enum TaskOutcome {
    /// The task wrote its part with this many records.
    Done(usize),
    /// The task did nothing (interrupted before it started).
    Skipped,
    /// The task failed.
    Failed,
}

/// The record counts of the finished tasks, in task order.
pub open spec fn done_counts(o: Seq<TaskOutcome>) -> Seq<usize>
    decreases o.len(),
{
    if o.len() == 0 {
        Seq::empty()
    } else {
        let prev = done_counts(o.drop_last());
        match o.last() {
            TaskOutcome::Done(c) => prev.push(c),
            _ => prev,
        }
    }
}

/// The number of skipped tasks.
pub open spec fn skipped_count(o: Seq<TaskOutcome>) -> nat
    decreases o.len(),
{
    if o.len() == 0 {
        0
    } else {
        skipped_count(o.drop_last()) + if o.last() == TaskOutcome::Skipped { 1nat } else { 0nat }
    }
}

/// The position of the first failed task, if any.
pub open spec fn first_failure(o: Seq<TaskOutcome>) -> Option<int>
    decreases o.len(),
{
    if o.len() == 0 {
        None
    } else {
        match first_failure(o.drop_last()) {
            Some(i) => Some(i),
            None => if o.last() == TaskOutcome::Failed { Some(o.len() - 1) } else { None },
        }
    }
}

/// Sorts the outcomes of parallel tasks: the counts of the finished ones in order, how
/// many were skipped, and where the first failure is (whose error the run reports, after
/// the finished parts are removed).
pub fn collect_outcomes(outcomes: &[TaskOutcome]) -> (r: (Vec<usize>, usize, Option<usize>))
    ensures
        r.0@ == done_counts(outcomes@),
        r.1 == skipped_count(outcomes@),
        match r.2 {
            Some(i) => first_failure(outcomes@) == Some(i as int),
            None => first_failure(outcomes@) is None,
        },
{
    let mut counts: Vec<usize> = Vec::new();
    let mut skipped: usize = 0;
    let mut first: Option<usize> = None;
    let n = outcomes.len();
    let mut k: usize = 0;
    while k < n
        invariant
            n == outcomes@.len(),
            k <= n,
            counts@ == done_counts(outcomes@.take(k as int)),
            skipped == skipped_count(outcomes@.take(k as int)),
            skipped <= k,
            match first {
                Some(i) => first_failure(outcomes@.take(k as int)) == Some(i as int),
                None => first_failure(outcomes@.take(k as int)) is None,
            },
        decreases n - k,
    {
        proof {
            assert(outcomes@.take(k + 1).drop_last() =~= outcomes@.take(k as int));
            assert(outcomes@.take(k + 1).last() == outcomes@[k as int]);
        }
        match outcomes[k] {
            TaskOutcome::Done(c) => counts.push(c),
            TaskOutcome::Skipped => skipped = skipped + 1,
            TaskOutcome::Failed => {
                if first.is_none() {
                    first = Some(k);
                }
            },
        }
        k = k + 1;
    }
    proof {
        assert(outcomes@.take(n as int) =~= outcomes@);
    }
    (counts, skipped, first)
}

} // verus!
