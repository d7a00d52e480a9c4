use dm_database_sqllog2db::engine::chunk::{should_split, ChunkEnd, ChunkPlan, MIN_CHUNK_SPLIT_SIZE};
use dm_database_sqllog2db::engine::memory_budget::{effective_jobs_for_memory_budget, DEFAULT_MEMORY_BUDGET_BYTES};
use dm_database_sqllog2db::engine::prescan::{
    build_indicator_filters, build_sql_exclude_filters, build_sql_include_filters, prescan_record_selected, FilterSpec,
};
use dm_database_sqllog2db::features::filters::{IndicatorFilters, SqlFilters};

const MIB: u64 = 1024 * 1024;

#[test]
fn memory_budget_test_requested_jobs_of_one_is_unaffected() {
    assert_eq!(effective_jobs_for_memory_budget(&[Some(10 * MIB)], 1, 2 * 1024 * MIB), 1);
}

#[test]
fn memory_budget_test_small_files_keep_requested_jobs() {
    let files = vec![Some(MIB); 8];
    assert_eq!(effective_jobs_for_memory_budget(&files, 8, 2 * 1024 * MIB), 8);
}

#[test]
fn memory_budget_test_large_files_cap_jobs_below_requested() {
    let files = vec![Some(500 * MIB); 8];
    assert_eq!(effective_jobs_for_memory_budget(&files, 8, 2 * 1024 * MIB), 1);
}

#[test]
fn memory_budget_test_single_huge_file_falls_back_to_one_job_not_zero() {
    assert_eq!(effective_jobs_for_memory_budget(&[Some(4096)], 8, 1), 1);
}

#[test]
fn memory_budget_test_missing_files_are_ignored_and_default_to_requested_jobs() {
    assert_eq!(effective_jobs_for_memory_budget(&[None], 8, 2 * 1024 * MIB), 8);
}

#[test]
fn memory_budget_zero_jobs_becomes_one() {
    assert_eq!(effective_jobs_for_memory_budget(&[], 0, DEFAULT_MEMORY_BUDGET_BYTES), 1);
}

#[test]
fn memory_budget_largest_file_decides() {
    // 100 MiB largest file -> 300 MiB per task -> 6 tasks fit in 2 GiB.
    let files = vec![Some(MIB), None, Some(100 * MIB)];
    assert_eq!(effective_jobs_for_memory_budget(&files, 16, DEFAULT_MEMORY_BUDGET_BYTES), 6);
}

#[test]
fn should_split_small_or_single_job() {
    assert_eq!(should_split(Some(MIN_CHUNK_SPLIT_SIZE - 1), 4), None);
    assert_eq!(should_split(Some(MIN_CHUNK_SPLIT_SIZE), 1), None);
    assert_eq!(should_split(None, 4), None);
    assert_eq!(should_split(Some(MIN_CHUNK_SPLIT_SIZE), 4), Some(MIN_CHUNK_SPLIT_SIZE));
}

#[test]
fn chunk_plan_cuts_at_target_and_last_takes_rest() {
    let mut p = ChunkPlan::new(100, 2);
    assert_eq!(p.target, 50);
    assert!(!p.line_written(30));
    assert!(p.line_written(30));
    assert_eq!(p.finish_chunk(), ChunkEnd::KeepAndContinue);
    assert!(p.is_last_chunk());
    assert!(!p.line_written(1000));
    assert_eq!(p.finish_chunk(), ChunkEnd::KeepAndStop);
}

#[test]
fn chunk_plan_empty_piece_is_discarded() {
    let mut p = ChunkPlan::new(10, 4);
    assert_eq!(p.finish_chunk(), ChunkEnd::Discard);
}

#[test]
fn chunk_plan_target_at_least_one() {
    let p = ChunkPlan::new(3, 8);
    assert_eq!(p.target, 1);
}

#[test]
fn test_build_indicator_filters_min_row_count_zero() {
    let indicators = IndicatorFilters { min_row_count: Some(0), ..IndicatorFilters::default() };
    let filters = build_indicator_filters(&indicators);
    assert_eq!(filters.len(), 1);
    assert!(matches!(filters[0], FilterSpec::AnyRecord));
}

#[test]
fn test_build_indicator_filters_min_row_count_positive() {
    let indicators = IndicatorFilters { min_row_count: Some(5), ..IndicatorFilters::default() };
    let filters = build_indicator_filters(&indicators);
    assert_eq!(filters.len(), 1);
    assert!(matches!(filters[0], FilterSpec::RowCountAbove(4)));
}

#[test]
fn test_build_indicator_filters_empty_returns_empty() {
    let filters = build_indicator_filters(&IndicatorFilters::default());
    assert_eq!(filters.len(), 0);
}

#[test]
fn test_build_sql_exclude_filters_multiple_returns_correct_count() {
    let sf = SqlFilters {
        excludes: Some(vec!["SELECT 1".into(), "DROP".into(), "DELETE FROM x".into()]),
        includes: None,
    };
    let filters = build_sql_exclude_filters(&sf);
    assert_eq!(filters.len(), 3);
    assert!(matches!(&filters[1], FilterSpec::SqlContains(p) if p == "DROP"));
}

#[test]
fn test_build_sql_exclude_filters_none_returns_empty() {
    let filters = build_sql_exclude_filters(&SqlFilters::default());
    assert_eq!(filters.len(), 0);
}

#[test]
fn test_build_sql_include_filters_multiple() {
    let sf = SqlFilters { includes: Some(vec!["SELECT".into(), "UPDATE".into()]), excludes: None };
    let filters = build_sql_include_filters(&sf);
    assert_eq!(filters.len(), 2);
}

#[test]
fn test_build_indicator_filters_exec_ids_multiple() {
    let indicators = IndicatorFilters { exec_ids: Some([1_i64, 2, 42].into_iter().collect()), ..IndicatorFilters::default() };
    let filters = build_indicator_filters(&indicators);
    assert_eq!(filters.len(), 3);
    let mut ids: Vec<i64> = filters
        .iter()
        .map(|f| match f {
            FilterSpec::ExecIdIs(id) => *id,
            other => panic!("unexpected {other:?}"),
        })
        .collect();
    ids.sort_unstable();
    assert_eq!(ids, vec![1, 2, 42]);
}

#[test]
fn indicator_filters_thresholds_come_first() {
    let indicators = IndicatorFilters {
        exec_ids: Some([7_i64].into_iter().collect()),
        min_runtime_ms: Some(100),
        min_row_count: Some(3),
    };
    let filters = build_indicator_filters(&indicators);
    assert!(matches!(filters[0], FilterSpec::ExecTimeAtLeast(100)));
    assert!(matches!(filters[1], FilterSpec::RowCountAbove(2)));
    assert!(matches!(filters[2], FilterSpec::ExecIdIs(7)));
}

#[test]
fn prescan_selection_paths_are_independent() {
    assert!(prescan_record_selected(&[false, true], false, &[], &[]));
    assert!(!prescan_record_selected(&[], false, &[true], &[]));
    assert!(prescan_record_selected(&[], true, &[], &[]));
    assert!(prescan_record_selected(&[], true, &[false, true], &[false]));
    assert!(!prescan_record_selected(&[], true, &[true], &[true]));
    assert!(!prescan_record_selected(&[false], true, &[false], &[]));
}

use dm_database_sqllog2db::engine::record_loop::{plan_record, should_stop, ExportAction, FileLoop, RecordPlan};
use dm_database_sqllog2db::engine::report::{error_log_lines, filtered_line, permille, summary_detail_lines};
use dm_database_sqllog2db::engine::routing::{
    chunk_jobs, chunked_single_file_eligible, finish_run, route_processing, shows_progress, total_records, uses_parallel,
    Route, RunShape,
};
use dm_database_sqllog2db::infrastructure::error::{Error as InfraError, ErrorKind, ErrorStats as InfraStats, ExportError, ParseErrorRecord};

#[test]
fn record_plans() {
    assert_eq!(plan_record(true, true, true, false), RecordPlan::Export { normalize: false });
    assert_eq!(plan_record(true, true, false, false), RecordPlan::Export { normalize: true });
    assert_eq!(plan_record(true, true, true, true), RecordPlan::Export { normalize: true });
    assert_eq!(plan_record(true, false, false, true), RecordPlan::Export { normalize: false });
    assert_eq!(plan_record(false, true, false, false), RecordPlan::ParamsOnly);
    assert_eq!(plan_record(false, true, true, false), RecordPlan::Skip);
    assert_eq!(plan_record(false, false, false, true), RecordPlan::Skip);
}

#[test]
fn file_loop_counts_exports_and_errors() {
    let mut l = FileLoop::new();
    assert!(!l.quota_reached(Some(1)));
    assert_eq!(l.export_succeeded(), ExportAction::Continue);
    assert!(l.quota_reached(Some(1)));
    assert!(!l.quota_reached(None));
    let nonfatal = InfraError::Export(ExportError::WriteFailed { path: "/x".into(), reason: "r".into() });
    assert_eq!(l.export_failed(&nonfatal, "w".to_string()), ExportAction::Continue);
    assert_eq!(l.file_stats.export_errors, 1);
    assert_eq!(l.export_failed(&InfraError::Interrupted, "stop".to_string()), ExportAction::BreakFatal);
    assert_eq!(l.file_stats.fatal_error.as_deref(), Some("stop"));
    l.filtered();
    assert_eq!(l.file_stats.filtered_out, 1);
    assert_eq!(l.records_in_file, 1);
}

#[test]
fn stop_checks_fall_on_ticks() {
    assert!(should_stop(true, 1024, 5, true));
    assert!(!should_stop(true, 1023, 1024, true));
    assert!(!should_stop(true, 0, 0, true));
    assert!(!should_stop(true, 2048, 0, false));
    assert!(should_stop(false, 3, 2048, true));
    assert!(!should_stop(false, 1024, 7, true));
}

fn shape() -> RunShape {
    RunShape {
        jobs: 4,
        file_count: 3,
        is_stdin_pipe: false,
        do_normalize: false,
        has_csv: true,
        has_sqlite: false,
        csv_splitting: false,
        has_transaction_filters: false,
    }
}

#[test]
fn routes() {
    assert_eq!(route_processing(&shape()), Route::ParallelCsv);
    let mut s = shape();
    s.csv_splitting = true;
    assert_eq!(route_processing(&s), Route::Sequential);
    s.has_sqlite = true;
    assert_eq!(route_processing(&s), Route::ParallelSqlite);
    let mut one = shape();
    one.file_count = 1;
    assert_eq!(route_processing(&one), Route::Sequential);
    assert!(chunked_single_file_eligible(&one));
    one.do_normalize = true;
    assert!(!chunked_single_file_eligible(&one));
    assert!(uses_parallel(&shape(), false));
    assert!(uses_parallel(&s, false));
    let mut split_only = shape();
    split_only.csv_splitting = true;
    assert!(!uses_parallel(&split_only, false));
    assert!(uses_parallel(&split_only, true));
    assert!(shows_progress(false, false, false));
    assert!(!shows_progress(false, false, true));
    assert_eq!(chunk_jobs(8, 3), 3);
    assert_eq!(total_records(&[1, 2, 3]), 6);
}

#[test]
fn finish_run_merges_or_reports_interruption() {
    let mut file_stats = InfraStats::default();
    file_stats.add_parse_error();
    file_stats.filtered_out = 4;
    file_stats.by_type.add(ErrorKind::ParseFailed, 1);
    file_stats.fatal_error = Some("disk full".to_string());
    file_stats.parse_error_records.push(ParseErrorRecord {
        line_number: 9,
        raw_truncated: "bad".to_string(),
        kind: ErrorKind::ParseFailed,
    });
    let mut run_stats = InfraStats::default();
    run_stats.filtered_out = 1;
    let ok = finish_run(run_stats, &file_stats, &[2, 5], false).unwrap();
    assert_eq!(ok.records_exported, 7);
    assert_eq!(ok.parse_errors, 1);
    assert_eq!(ok.filtered_out, 5);
    assert_eq!(ok.by_type.get(ErrorKind::ParseFailed), 1);
    assert_eq!(ok.fatal_error.as_deref(), Some("disk full"));
    assert_eq!(ok.parse_error_records.len(), 1);
    assert_eq!(ok.parse_error_records[0].line_number, 9);
    assert!(matches!(finish_run(InfraStats::default(), &file_stats, &[1], true), Err(InfraError::Interrupted)));
}

#[test]
fn report_lines() {
    assert_eq!(permille(1, 3), 333);
    assert_eq!(permille(5, 0), 0);
    assert_eq!(filtered_line(1, 3), "  filtered: 1 records (33.3% of 3 total)");
    let mut s = InfraStats::default();
    assert!(summary_detail_lines(&s, 10).is_empty());
    s.add_parse_error();
    s.by_type.add(ErrorKind::EncodingError, 1);
    s.filtered_out = 5;
    let lines = summary_detail_lines(&s, 15);
    assert_eq!(lines[0], "  Errors: 1 total (1 parse, 0 export)");
    assert_eq!(lines[1], "  errors by type: encoding=1, field_missing=0, parse_failed=0");
    assert_eq!(lines[2], "  filtered: 5 records (25.0% of 20 total)");
    assert!(lines[3].contains("encoding_error"));
    assert_eq!(lines.len(), 4);
}

#[test]
fn error_log_lines_with_truncation_note() {
    let mut s = InfraStats::default();
    s.parse_error_records.push(ParseErrorRecord { line_number: 12, raw_truncated: "bad".into(), kind: ErrorKind::FieldMissing });
    s.parse_errors = 3;
    let lines = error_log_lines(&s);
    assert_eq!(lines, vec![
        "[ERROR] line 12: bad  reason: field_missing".to_string(),
        "[truncated; showing first 10000 of 3 total parse errors]".to_string(),
    ]);
}

#[test]
fn prepare_test_requested_jobs_of_one_is_unaffected() {
    assert_eq!(effective_jobs_for_memory_budget(&[Some(10 * MIB)], 1, 2 * 1024 * MIB), 1);
}

#[test]
fn prepare_test_small_files_keep_requested_jobs() {
    assert_eq!(effective_jobs_for_memory_budget(&vec![Some(MIB); 8], 8, 2 * 1024 * MIB), 8);
}

#[test]
fn prepare_test_large_files_cap_jobs_below_requested() {
    assert_eq!(effective_jobs_for_memory_budget(&vec![Some(500 * MIB); 8], 8, 2 * 1024 * MIB), 1);
}

#[test]
fn prepare_test_single_huge_file_falls_back_to_one_job_not_zero() {
    assert_eq!(effective_jobs_for_memory_budget(&[Some(4096)], 8, 1), 1);
}

#[test]
fn prepare_test_missing_files_are_ignored_and_default_to_requested_jobs() {
    assert_eq!(effective_jobs_for_memory_budget(&[None], 8, 2 * 1024 * MIB), 8);
}

#[test]
fn merge_keeps_at_most_ten_thousand_parse_records() {
    let rec = |n: u64| ParseErrorRecord { line_number: n, raw_truncated: "x".into(), kind: ErrorKind::ParseFailed };
    let mut a = InfraStats::default();
    for n in 0..9_998 {
        a.parse_error_records.push(rec(n));
    }
    let mut b = InfraStats::default();
    for n in 0..5 {
        b.parse_error_records.push(rec(100_000 + n));
    }
    assert!(a.can_merge(&b));
    a.merge(&b);
    assert_eq!(a.parse_error_records.len(), 10_000);
    assert_eq!(a.parse_error_records[9_998].line_number, 100_000);
    assert_eq!(a.parse_error_records[9_999].line_number, 100_001);
}

#[test]
fn merge_adds_counts_and_keeps_first_fatal() {
    let mut a = InfraStats::default();
    a.set_fatal("first".to_string());
    let mut b = InfraStats::default();
    b.add_parse_error();
    b.by_type.add(ErrorKind::FieldMissing, 2);
    b.filtered_out = 4;
    b.set_fatal("second".to_string());
    a.merge(&b);
    assert_eq!(a.parse_errors, 1);
    assert_eq!(a.by_type.get(ErrorKind::FieldMissing), 2);
    assert_eq!(a.filtered_out, 4);
    assert_eq!(a.fatal_error.as_deref(), Some("first"));
}

#[test]
fn cannot_merge_when_a_counter_would_overflow() {
    let mut a = InfraStats::default();
    a.filtered_out = u64::MAX;
    let mut b = InfraStats::default();
    b.filtered_out = 1;
    assert!(!a.can_merge(&b));
}

use dm_database_sqllog2db::engine::routing::{collect_outcomes, TaskOutcome};

#[test]
fn outcomes_sorted_into_counts_skips_and_first_failure() {
    let o = [TaskOutcome::Done(3), TaskOutcome::Skipped, TaskOutcome::Failed, TaskOutcome::Done(4), TaskOutcome::Failed];
    let (counts, skipped, first) = collect_outcomes(&o);
    assert_eq!(counts, vec![3, 4]);
    assert_eq!(skipped, 1);
    assert_eq!(first, Some(2));
    let (counts, skipped, first) = collect_outcomes(&[TaskOutcome::Done(1)]);
    assert_eq!((counts, skipped, first), (vec![1], 0, None));
}

#[test]
fn test_hint_output() {
    let mut stats = InfraStats::default();
    stats.total_errors = 3;
    stats.parse_errors = 3;
    stats.by_type.add(ErrorKind::EncodingError, 3);
    assert_eq!(stats.by_type.get(ErrorKind::EncodingError), 3, "by_type[EncodingError] should be 3");
    let lines = summary_detail_lines(&stats, 0);
    assert_eq!(lines[0], "  Errors: 3 total (3 parse, 0 export)");
    assert_eq!(lines[1], "  errors by type: encoding=3, field_missing=0, parse_failed=0");
    assert!(lines.iter().any(|l| l.contains("encoding_error")));
}

#[test]
fn test_run_summary() {
    let mut stats = InfraStats::default();
    stats.total_errors = 2;
    stats.parse_errors = 2;
    stats.filtered_out = 5;
    stats.by_type.add(ErrorKind::EncodingError, 2);
    let lines = summary_detail_lines(&stats, 10);
    assert_eq!(lines[0], "  Errors: 2 total (2 parse, 0 export)");
    assert_eq!(lines[1], "  errors by type: encoding=2, field_missing=0, parse_failed=0");
    assert_eq!(lines[2], "  filtered: 5 records (33.3% of 15 total)");
}

#[test]
fn filtered_share_rounds_to_nearest_tenth() {
    assert_eq!(permille(2, 3), 667);
    assert_eq!(permille(1, 16), 62);
    assert_eq!(permille(3, 16), 188);
    assert_eq!(permille(1, 8), 125);
    assert_eq!(filtered_line(2, 3), "  filtered: 2 records (66.7% of 3 total)");
    assert_eq!(filtered_line(1, 16), "  filtered: 1 records (6.2% of 16 total)");
}

#[test]
fn file_loop_keeps_other_counters() {
    let mut l = FileLoop::new();
    l.file_stats.add_parse_error();
    l.filtered();
    l.filtered();
    let nonfatal = InfraError::Export(ExportError::WriteFailed { path: "/x".into(), reason: "r".into() });
    assert_eq!(l.export_failed(&nonfatal, "w".to_string()), ExportAction::Continue);
    assert_eq!(l.file_stats.parse_errors, 1);
    assert_eq!(l.file_stats.filtered_out, 2);
    assert_eq!(l.file_stats.total_errors, 2);
    assert_eq!(l.file_stats.export_errors, 1);
    assert!(l.file_stats.fatal_error.is_none());
    assert_eq!(l.export_failed(&InfraError::Interrupted, "stop".to_string()), ExportAction::BreakFatal);
    assert_eq!(l.file_stats.total_errors, 2);
    assert_eq!(l.file_stats.filtered_out, 2);
    assert_eq!(l.file_stats.fatal_error.as_deref(), Some("stop"));
}
