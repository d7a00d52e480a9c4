use dm_database_sqllog2db::exporter::companion::{format_companion_row, TemplateStats};
use dm_database_sqllog2db::exporter::csv_layout::CsvLayout;
use dm_database_sqllog2db::exporter::csv_row::{write_all_fields, write_csv_escaped, write_selected_fields};
use dm_database_sqllog2db::exporter::csv_split::{is_split_file_name, split_file_name, CsvSplitState};
use dm_database_sqllog2db::exporter::fields::{all_field_indices, projected_field_names, FIELD_COUNT};
use dm_database_sqllog2db::exporter::record::LogRecord;
use dm_database_sqllog2db::exporter::sql_builder::{build_create_sql, build_insert_sql, build_multi_row_insert_sql};
use dm_database_sqllog2db::exporter::sql_values::{record_to_values, SqlValue};
use dm_database_sqllog2db::exporter::stats::ExportStats;
use dm_database_sqllog2db::exporter::util::strip_ip_prefix;

const FIELD_NAMES: [&str; 15] = [
    "ts", "ep", "sess_id", "thrd_id", "username", "trx_id", "statement", "appname", "client_ip", "tag", "sql",
    "exec_time_ms", "row_count", "exec_id", "normalized_sql",
];

fn sample_record() -> LogRecord {
    LogRecord {
        ts: "2025-01-15 10:30:28.001".to_string(),
        ep: 0,
        sess_id: "0x0001".to_string(),
        thrd_id: "0x0002".to_string(),
        username: "testuser".to_string(),
        trxid: "1".to_string(),
        statement: "0x1".to_string(),
        appname: "App".to_string(),
        client_ip: "::ffff:10.0.0.1".to_string(),
        tag: Some("SEL".to_string()),
        sql: "SELECT \"a\" FROM t".to_string(),
        exec_time_ms: 12,
        exec_time_positive: true,
        rowcount: 3,
        exec_id: 77,
    }
}

fn zero_metrics_record() -> LogRecord {
    let mut r = sample_record();
    r.exec_time_ms = 0;
    r.exec_time_positive = false;
    r.rowcount = 0;
    r.exec_id = 0;
    r.tag = None;
    r
}

// ── projection ──
#[test]
fn test_projected_field_names_full() {
    let indices: Vec<usize> = (0..FIELD_NAMES.len()).collect();
    let names = projected_field_names(&indices);
    assert_eq!(names.len(), FIELD_NAMES.len());
    assert_eq!(names, FIELD_NAMES.to_vec());
}

#[test]
fn test_projected_field_names_subset() {
    let indices = vec![10, 4];
    let names = projected_field_names(&indices);
    assert_eq!(names, vec!["sql", "username"]);
}

#[test]
fn test_projected_field_names_order_preserved() {
    let indices = vec![4, 10, 0];
    let names = projected_field_names(&indices);
    assert_eq!(names, vec!["username", "sql", "ts"]);
}

// ── SQL builder ──
#[test]
fn test_build_insert_sql_ordered() {
    let sql = build_insert_sql("t", &[10, 4]);
    assert_eq!(sql, "INSERT INTO \"t\" (sql, username) VALUES (?, ?)");
}

#[test]
fn test_build_create_sql_ordered() {
    let sql = build_create_sql("t", &[10, 4]);
    assert_eq!(sql, "CREATE TABLE IF NOT EXISTS \"t\" (sql TEXT NOT NULL, username TEXT NOT NULL)");
}

#[test]
fn test_build_insert_sql_full_fast_path() {
    let all_indices: Vec<usize> = (0..15).collect();
    let sql = build_insert_sql("t", &all_indices);
    assert_eq!(sql, "INSERT INTO \"t\" VALUES (?, ?, ?, ?, ?, ?, ?, ?, ?, ?, ?, ?, ?, ?, ?)");
}

#[test]
fn test_build_multi_row_insert_sql_basic() {
    let sql = build_multi_row_insert_sql("t", &[10, 4, 0], 2);
    assert_eq!(sql, "INSERT INTO \"t\" (sql, username, ts) VALUES (?, ?, ?), (?, ?, ?)");
}

#[test]
fn test_build_multi_row_insert_sql_single_row() {
    let all_indices: Vec<usize> = (0..15).collect();
    let single_row_sql = build_multi_row_insert_sql("t", &all_indices, 1);
    let full_path_sql = build_insert_sql("t", &all_indices);
    assert_eq!(single_row_sql, full_path_sql);
}

#[test]
fn test_build_multi_row_insert_sql_64_rows() {
    let all_indices: Vec<usize> = (0..15).collect();
    let sql = build_multi_row_insert_sql("t", &all_indices, 64);
    assert!(sql.starts_with("INSERT INTO \"t\" VALUES "));
    let paren_count = sql.matches('(').count();
    assert_eq!(paren_count, 64, "expected 64 rows, got: {paren_count}");
    let placeholder_count = sql.matches('?').count();
    assert_eq!(placeholder_count, 960, "expected 960 placeholders, got: {placeholder_count}");
}

#[test]
fn single_row_batch_equals_insert_for_projection() {
    assert_eq!(build_multi_row_insert_sql("tbl", &[3, 1], 1), build_insert_sql("tbl", &[3, 1]));
}

#[test]
fn create_sql_full_column_types() {
    let all = all_field_indices();
    let sql = build_create_sql("r", &all);
    assert!(sql.starts_with("CREATE TABLE IF NOT EXISTS \"r\" (ts TEXT NOT NULL, ep INTEGER NOT NULL, "));
    assert!(sql.ends_with("exec_time_ms INTEGER, row_count INTEGER, exec_id INTEGER, normalized_sql TEXT)"));
}

// ── ExportStats ──
#[test]
fn test_export_stats_default() {
    let s = ExportStats::new();
    assert_eq!(s.exported, 0);
    assert_eq!(s.total(), 0);
}

#[test]
fn test_export_stats_record_success() {
    let mut s = ExportStats::new();
    s.record_success();
    s.record_success();
    assert_eq!(s.exported, 2);
    assert_eq!(s.total(), 2);
}

#[test]
fn test_export_stats_total_includes_all() {
    let mut s = ExportStats::new();
    s.exported = 5;
    s.skipped = 2;
    s.failed = 1;
    assert_eq!(s.total(), 8);
}

// ── strip_ip_prefix ──
#[test]
fn test_strip_ip_prefix_with_prefix() {
    assert_eq!(strip_ip_prefix("::ffff:192.168.1.1"), "192.168.1.1");
}

#[test]
fn test_strip_ip_prefix_uppercase() {
    assert_eq!(strip_ip_prefix("::FFFF:10.0.0.1"), "10.0.0.1");
}

#[test]
fn test_strip_ip_prefix_no_prefix() {
    assert_eq!(strip_ip_prefix("192.168.1.1"), "192.168.1.1");
}

#[test]
fn test_strip_ip_prefix_ipv6() {
    assert_eq!(strip_ip_prefix("2001:db8::1"), "2001:db8::1");
}

#[test]
fn test_strip_ip_prefix_empty() {
    assert_eq!(strip_ip_prefix(""), "");
}

#[test]
fn test_strip_ip_prefix_colon_non_ffff() {
    assert_eq!(strip_ip_prefix("::1"), "::1");
}

#[test]
fn strip_ip_prefix_alone_is_kept() {
    assert_eq!(strip_ip_prefix("::ffff:"), "::ffff:");
}

// ── CSV escaping and rows ──
#[test]
fn test_write_csv_escaped_with_quotes() {
    let mut buf = Vec::new();
    write_csv_escaped(&mut buf, b"say \"hello\"");
    assert_eq!(buf, b"say \"\"hello\"\"");
}

#[test]
fn test_write_csv_escaped_no_quotes() {
    let mut buf = Vec::new();
    write_csv_escaped(&mut buf, b"no quotes here");
    assert_eq!(buf, b"no quotes here");
}

#[test]
fn csv_escaped_appends_to_existing_content() {
    let mut buf = b"x,".to_vec();
    write_csv_escaped(&mut buf, b"\"\"");
    assert_eq!(buf, b"x,\"\"\"\"");
}

#[test]
fn full_row_of_sample_record() {
    let mut buf = Vec::new();
    write_all_fields(&mut buf, &sample_record(), true, Some("SELECT ?"), true);
    assert_eq!(
        String::from_utf8(buf).unwrap(),
        "2025-01-15 10:30:28.001,0,0x0001,0x0002,testuser,1,0x1,App,10.0.0.1,SEL,\"SELECT \"\"a\"\" FROM t\",12,3,77,\"SELECT ?\""
    );
}

#[test]
fn full_row_without_metrics_leaves_columns_empty() {
    let mut buf = Vec::new();
    write_all_fields(&mut buf, &zero_metrics_record(), false, None, true);
    assert_eq!(
        String::from_utf8(buf).unwrap(),
        "2025-01-15 10:30:28.001,0,0x0001,0x0002,testuser,1,0x1,App,10.0.0.1,,\"SELECT \"\"a\"\" FROM t\",,,"
    );
}

#[test]
fn full_row_normalize_without_text_ends_with_empty_column() {
    let mut buf = Vec::new();
    write_all_fields(&mut buf, &zero_metrics_record(), true, None, false);
    let line = String::from_utf8(buf).unwrap();
    assert!(line.ends_with("FROM t\","), "got: {line}");
}

#[test]
fn selected_row_in_requested_order() {
    let mut buf = Vec::new();
    write_selected_fields(&mut buf, &sample_record(), false, None, &[10, 4], true);
    assert_eq!(String::from_utf8(buf).unwrap(), "\"SELECT \"\"a\"\" FROM t\",testuser");
}

#[test]
fn selected_row_skips_hidden_and_unknown_columns() {
    let mut buf = Vec::new();
    write_selected_fields(&mut buf, &sample_record(), false, Some("N"), &[4, 11, 14, 99, 8], false);
    assert_eq!(String::from_utf8(buf).unwrap(), "testuser,10.0.0.1");
}

#[test]
fn selected_all_columns_equals_full_row() {
    for normalize in [false, true] {
        for pm in [false, true] {
            for r in [sample_record(), zero_metrics_record()] {
                let mut a = Vec::new();
                let mut b = Vec::new();
                write_all_fields(&mut a, &r, normalize, Some("Q"), pm);
                let all: Vec<usize> = (0..FIELD_COUNT).collect();
                write_selected_fields(&mut b, &r, normalize, Some("Q"), &all, pm);
                assert_eq!(a, b);
            }
        }
    }
}

#[test]
fn layout_line_ends_with_newline_and_drops_old_content() {
    let layout = CsvLayout::all_columns();
    let mut buf = b"stale".to_vec();
    layout.format_record_line(&mut buf, &zero_metrics_record(), None);
    let line = String::from_utf8(buf).unwrap();
    assert!(line.starts_with("2025-01-15"));
    assert!(line.ends_with(",,,,\n"), "got: {line}");
}

#[test]
fn header_full_order() {
    let layout = CsvLayout::all_columns();
    assert_eq!(String::from_utf8(layout.build_header()).unwrap(), format!("{}\n", FIELD_NAMES.join(",")));
}

#[test]
fn header_skips_normalized_and_metrics_when_disabled() {
    let mut layout = CsvLayout::all_columns();
    layout.normalize = false;
    layout.include_performance_metrics = false;
    assert_eq!(
        String::from_utf8(layout.build_header()).unwrap(),
        "ts,ep,sess_id,thrd_id,username,trx_id,statement,appname,client_ip,tag,sql\n"
    );
}

#[test]
fn header_field_order_projection() {
    let mut layout = CsvLayout::all_columns();
    layout.all_fields = false;
    layout.ordered_indices = vec![10, 4];
    assert_eq!(String::from_utf8(layout.build_header()).unwrap(), "sql,username\n");
}

// ── companion ──
#[test]
fn companion_row_quotes_and_numbers() {
    let s = TemplateStats {
        template_key: "SELECT \"x\"".to_string(),
        count: 3,
        avg_us: 10,
        min_us: 1,
        max_us: 20,
        p50_us: 9,
        p95_us: 19,
        p99_us: 20,
        first_seen: "a".to_string(),
        last_seen: "b".to_string(),
    };
    let mut buf = b"old".to_vec();
    format_companion_row(&mut buf, &s);
    assert_eq!(String::from_utf8(buf).unwrap(), "\"SELECT \"\"x\"\"\",3,10,1,20,9,19,20,\"a\",\"b\"\n");
}

// ── split files ──
#[test]
fn split_file_name_format() {
    assert_eq!(split_file_name("out", 3, "csv"), "out_3.csv");
}

#[test]
fn split_file_names_recognized() {
    assert!(is_split_file_name("out_12.csv", "out", "csv"));
    assert!(!is_split_file_name("out.csv", "out", "csv"));
    assert!(!is_split_file_name("out_.csv", "out", "csv"));
    assert!(!is_split_file_name("out_final.csv", "out", "csv"));
    assert!(!is_split_file_name("out_1.txt", "out", "csv"));
    assert!(!is_split_file_name("other_1.csv", "out", "csv"));
}

#[test]
fn split_state_rotates_at_limit() {
    let mut s = CsvSplitState::new(Some(2));
    assert_eq!(s.numbered_file(), None);
    s.begin();
    assert_eq!(s.numbered_file(), Some(1));
    assert!(!s.row_written());
    assert!(s.row_written());
    s.next_file();
    assert_eq!(s.numbered_file(), Some(2));
    assert_eq!(s.rows_in_file, 0);
}

#[test]
fn split_state_without_limit_never_rotates() {
    let mut s = CsvSplitState::new(None);
    s.begin();
    assert_eq!(s.numbered_file(), None);
    for _ in 0..10 {
        assert!(!s.row_written());
    }
}

// ── SQLite values ──
#[test]
fn record_values_follow_projection() {
    let v = record_to_values(&sample_record(), Some("N"), &[8, 1, 9, 11, 14]);
    assert!(matches!(&v[0], SqlValue::Text(t) if t == "10.0.0.1"));
    assert!(matches!(v[1], SqlValue::Integer(0)));
    assert!(matches!(&v[2], SqlValue::Text(t) if t == "SEL"));
    assert!(matches!(v[3], SqlValue::Integer(12)));
    assert!(matches!(&v[4], SqlValue::Text(t) if t == "N"));
}

#[test]
fn record_values_null_without_metrics() {
    let v = record_to_values(&zero_metrics_record(), None, &[9, 11, 12, 13, 14]);
    for x in &v {
        assert!(matches!(x, SqlValue::Null));
    }
}

use dm_database_sqllog2db::exporter::parquet_columns::{
    active_indices, column_kind, column_nullable, ColumnBuffer, ColumnKind, ParquetBuffer,
};

#[test]
fn parquet_column_kinds() {
    assert_eq!(column_kind(1), ColumnKind::Int32);
    assert_eq!(column_kind(12), ColumnKind::Int64);
    assert_eq!(column_kind(8), ColumnKind::Utf8);
    assert!(column_nullable(9));
    assert!(column_nullable(14));
    assert!(!column_nullable(10));
    assert_eq!(active_indices(&[0, 14, 3], false), vec![0, 3]);
    assert_eq!(active_indices(&[0, 14, 3], true), vec![0, 14, 3]);
}

#[test]
fn parquet_buffer_appends_one_cell_per_column() {
    let mut b = ParquetBuffer::new(vec![1, 8, 11, 9, 14], 4);
    b.append_record(&sample_record(), None);
    b.append_record(&zero_metrics_record(), Some("N"));
    assert_eq!(b.buffered_rows, 2);
    assert!(b.needs_flush(2));
    assert!(!b.needs_flush(3));
    let cols = b.take_columns(4);
    assert_eq!(b.buffered_rows, 0);
    assert_eq!(b.buffered_bytes, 0);
    match &cols[0] {
        ColumnBuffer::Int32(v) => assert_eq!(v, &vec![Some(0), Some(0)]),
        other => panic!("unexpected {other:?}"),
    }
    match &cols[1] {
        ColumnBuffer::Utf8(v) => assert_eq!(v, &vec![Some("10.0.0.1".to_string()), Some("10.0.0.1".to_string())]),
        other => panic!("unexpected {other:?}"),
    }
    match &cols[2] {
        ColumnBuffer::Int64(v) => assert_eq!(v, &vec![Some(12), None]),
        other => panic!("unexpected {other:?}"),
    }
    match &cols[3] {
        ColumnBuffer::Utf8(v) => assert_eq!(v, &vec![Some("SEL".to_string()), None]),
        other => panic!("unexpected {other:?}"),
    }
    match &cols[4] {
        ColumnBuffer::Utf8(v) => assert_eq!(v, &vec![None, Some("N".to_string())]),
        other => panic!("unexpected {other:?}"),
    }
}

#[test]
fn export_stats_summary_line() {
    let mut s = ExportStats::new();
    s.exported = 4;
    s.failed = 1;
    assert_eq!(s.summary_line("CSV"), "Export stats: CSV => success: 4, failed: 1, skipped: 0 (total: 5)");
    s.flush_operations = 2;
    s.last_flush_size = 64;
    assert_eq!(
        s.summary_line("SQLite"),
        "Export stats: SQLite => success: 4, failed: 1, skipped: 0 (total: 5) | flushed: 2 times (recent 64 entries)"
    );
}

use dm_database_sqllog2db::exporter::csv_layout::header_needed;
use dm_database_sqllog2db::exporter::sqlite_batch::{batch_commit_due, is_missing_table_message, InsertCache};

#[test]
fn header_written_unless_appending_to_content() {
    assert!(header_needed(false, false));
    assert!(header_needed(true, true));
    assert!(!header_needed(true, false));
}

#[test]
fn commits_every_batch() {
    let mut n = 0usize;
    assert!(!batch_commit_due(&mut n, 3));
    assert!(!batch_commit_due(&mut n, 3));
    assert!(batch_commit_due(&mut n, 3));
    assert_eq!(n, 3);
}

#[test]
fn missing_table_messages() {
    assert!(is_missing_table_message("no such table: records"));
    assert!(!is_missing_table_message("database is locked"));
}

#[test]
fn insert_cache_builds_once_and_matches_builder() {
    let mut c = InsertCache::new("t".to_string(), vec![10, 4]);
    let a = c.statement(2);
    let b = c.statement(2);
    assert_eq!(a, b);
    assert_eq!(a, build_multi_row_insert_sql("t", &[10, 4], 2));
    assert_eq!(c.statement(1), build_insert_sql("t", &[10, 4]));
}

use dm_database_sqllog2db::error::{ConfigError, Error};
use dm_database_sqllog2db::exporter::choice::{choose_exporter, ExporterChoice};

#[test]
fn exporter_choice_order_and_names() {
    assert_eq!(choose_exporter(false, false, true).unwrap().name(), "SQLite");
    assert_eq!(choose_exporter(false, true, true).unwrap(), ExporterChoice::Csv);
    assert_eq!(choose_exporter(true, true, false).unwrap().name(), "Parquet");
    assert!(matches!(choose_exporter(false, false, false), Err(Error::Config(ConfigError::NoExporters))));
    assert!(!ExporterChoice::Csv.include_performance_metrics(false));
    assert!(ExporterChoice::Sqlite.include_performance_metrics(false));
}

#[test]
fn every_split_name_is_recognized_by_cleanup() {
    for i in [1usize, 9, 10, 12345] {
        let name = split_file_name("sqllog", i, "csv");
        assert!(is_split_file_name(&name, "sqllog", "csv"), "{name}");
    }
}

#[test]
fn selected_row_without_address_column_accepts_any_address() {
    let mut r = sample_record();
    r.client_ip = ":ab:cd\u{e9}x".to_string();
    let mut buf = Vec::new();
    write_selected_fields(&mut buf, &r, false, None, &[4, 0], true);
    assert_eq!(String::from_utf8(buf).unwrap(), "testuser,2025-01-15 10:30:28.001");
}

#[test]
fn full_width_insert_does_not_look_at_indices() {
    let odd = [99usize; 15];
    assert_eq!(
        build_insert_sql("t", &odd),
        "INSERT INTO \"t\" VALUES (?, ?, ?, ?, ?, ?, ?, ?, ?, ?, ?, ?, ?, ?, ?)"
    );
    assert_eq!(build_multi_row_insert_sql("t", &odd, 1), build_insert_sql("t", &odd));
}

#[test]
fn parquet_buffer_without_address_column_accepts_any_address() {
    let mut r = sample_record();
    r.client_ip = ":ab:cd\u{e9}x".to_string();
    let mut b = ParquetBuffer::new(vec![4, 1], 2);
    b.append_record(&r, None);
    assert_eq!(b.buffered_rows, 1);
    let cols = b.take_columns(2);
    match &cols[0] {
        ColumnBuffer::Utf8(v) => assert_eq!(v, &vec![Some("testuser".to_string())]),
        other => panic!("unexpected {other:?}"),
    }
}
