use dm_database_sqllog2db::features::filters::{
    compile_patterns, match_any_regex, CompiledMetaFilters, CompiledSqlFilters, ExcludeFilters, FiltersFeature,
    IncludeFilters, IndicatorFilters, RecordMeta, SqlFilters, TrxidSet,
};

fn make_feature(enable: bool) -> FiltersFeature {
    FiltersFeature {
        enable,
        includes: IncludeFilters::default(),
        exclude: ExcludeFilters::default(),
        indicators: IndicatorFilters::default(),
        sql: SqlFilters::default(),
        record_sql: SqlFilters::default(),
    }
}

fn m<'a>(trxid: &'a str, ip: &'a str, user: &'a str, tag: Option<&'a str>) -> RecordMeta<'a> {
    RecordMeta { trxid, ip, sess: "s", thrd: "t", user, stmt: "st", app: "a", tag }
}

#[test]
fn test_has_filters_disabled_returns_false() {
    let mut f = make_feature(false);
    f.includes.users = Some(vec!["USER".into()]);
    assert!(!f.has_filters());
}

#[test]
fn test_has_filters_empty() {
    assert!(!make_feature(true).has_filters());
}

#[test]
fn test_has_filters_with_username() {
    let mut f = make_feature(true);
    f.includes.users = Some(vec!["USER".into()]);
    assert!(f.has_filters());
}

#[test]
fn test_has_filters_with_start_ts() {
    let mut f = make_feature(true);
    f.includes.start_ts = Some("2025-01-01".into());
    assert!(f.has_filters());
}

#[test]
fn test_has_filters_with_indicator() {
    let mut f = make_feature(true);
    f.indicators.min_runtime_ms = Some(1000);
    assert!(f.has_filters());
}

#[test]
fn test_has_transaction_filters_disabled() {
    let mut f = make_feature(false);
    f.indicators.min_runtime_ms = Some(1000);
    assert!(!f.has_transaction_filters());
}

#[test]
fn test_has_transaction_filters_no_indicators() {
    let mut f = make_feature(true);
    f.includes.users = Some(vec!["USER".into()]);
    assert!(!f.has_transaction_filters());
}

#[test]
fn test_has_transaction_filters_with_min_runtime() {
    let mut f = make_feature(true);
    f.indicators.min_runtime_ms = Some(500);
    assert!(f.has_transaction_filters());
}

#[test]
fn test_has_transaction_filters_with_exec_ids() {
    let mut f = make_feature(true);
    f.indicators.exec_ids = Some([1_i64, 2, 3].into_iter().collect());
    assert!(f.has_transaction_filters());
}

#[test]
fn test_merge_found_trxids_empty_list() {
    let mut f = make_feature(true);
    f.includes.users = Some(vec!["USER".into()]);
    f.merge_found_trxids(vec![]);
    assert!(f.includes.trxids.is_none());
}

#[test]
fn test_merge_found_trxids_adds_to_set() {
    let mut f = make_feature(true);
    f.includes.users = Some(vec!["USER".into()]);
    f.merge_found_trxids(vec!["TX1".into(), "TX2".into()]);
    let trxids = f.includes.trxids.unwrap();
    assert!(trxids.contains("TX1"));
    assert!(trxids.contains("TX2"));
    assert!(!trxids.contains("TX3"));
}

#[test]
fn merge_found_trxids_disabled_changes_nothing() {
    let mut f = make_feature(false);
    f.merge_found_trxids(vec!["TX1".into()]);
    assert!(f.includes.trxids.is_none());
}

#[test]
fn test_indicator_has_filters_empty() {
    assert!(!IndicatorFilters::default().has_filters());
}

#[test]
fn test_indicator_matches_exec_id() {
    let f = IndicatorFilters { exec_ids: Some([42_i64].into_iter().collect()), min_runtime_ms: None, min_row_count: None };
    assert!(f.matches(42, 0, 0));
    assert!(!f.matches(99, 0, 0));
}

#[test]
fn test_indicator_matches_min_runtime() {
    let f = IndicatorFilters { exec_ids: None, min_runtime_ms: Some(1000), min_row_count: None };
    assert!(f.matches(0, 1000, 0));
    assert!(f.matches(0, 2000, 0));
    assert!(!f.matches(0, 999, 0));
}

#[test]
fn test_indicator_matches_min_row_count() {
    let f = IndicatorFilters { exec_ids: None, min_runtime_ms: None, min_row_count: Some(100) };
    assert!(f.matches(0, 0, 100));
    assert!(!f.matches(0, 0, 99));
}

#[test]
fn test_indicator_no_filters_always_false() {
    assert!(!IndicatorFilters::default().matches(1, 9999, 9999));
}

#[test]
fn test_sql_filters_empty() {
    assert!(!SqlFilters::default().has_filters());
    assert!(!SqlFilters::default().matches("SELECT 1"));
}

#[test]
fn test_sql_filters_include_pattern() {
    let f = SqlFilters { includes: Some(vec!["SELECT".into()]), excludes: None };
    assert!(f.matches("SELECT * FROM t"));
    assert!(!f.matches("INSERT INTO t VALUES (1)"));
}

#[test]
fn test_sql_filters_exclude_pattern() {
    let f = SqlFilters { includes: None, excludes: Some(vec!["DROP".into()]) };
    assert!(f.matches("SELECT * FROM t"));
    assert!(!f.matches("DROP TABLE t"));
}

#[test]
fn test_sql_filters_include_and_exclude() {
    let f = SqlFilters { includes: Some(vec!["FROM t".into()]), excludes: Some(vec!["WHERE id=0".into()]) };
    assert!(f.matches("SELECT * FROM t WHERE id=1"));
    assert!(!f.matches("SELECT * FROM t WHERE id=0"));
    assert!(!f.matches("SELECT * FROM other"));
}

#[test]
fn test_sql_filters_empty_include_patterns_with_exclude() {
    let f = SqlFilters { includes: Some(vec![]), excludes: Some(vec!["DROP".into()]) };
    assert!(f.matches("SELECT 1"));
    assert!(!f.matches("DROP TABLE t"));
}

#[test]
fn test_compile_patterns_none() {
    let result = compile_patterns("test.field", None);
    assert!(result.is_ok());
    assert!(result.unwrap().is_none());
}

#[test]
fn test_compile_patterns_empty() {
    let result = compile_patterns("test.field", Some(&[]));
    assert!(result.is_ok());
    assert!(result.unwrap().is_none());
}

#[test]
fn test_compile_patterns_valid() {
    let patterns = vec!["^admin.*".to_string()];
    let result = compile_patterns("test.field", Some(&patterns));
    assert!(result.is_ok());
    let compiled = result.unwrap();
    assert!(compiled.is_some());
    assert_eq!(compiled.unwrap().len(), 1);
}

#[test]
fn test_compile_patterns_invalid() {
    let patterns = vec!["[invalid".to_string()];
    let result = compile_patterns("test.field", Some(&patterns));
    assert!(result.is_err());
}

#[test]
fn test_match_any_regex_none_passes() {
    assert!(match_any_regex(None, "anything"));
}

#[test]
fn test_match_any_regex_empty_passes() {
    assert!(match_any_regex(Some(&[]), "anything"));
}

#[test]
fn test_match_any_regex_match() {
    let re = compile_patterns("f", Some(&["^admin".to_string()])).unwrap().unwrap();
    assert!(match_any_regex(Some(&re), "admin_dba"));
}

#[test]
fn test_match_any_regex_no_match() {
    let re = compile_patterns("f", Some(&["^admin".to_string()])).unwrap().unwrap();
    assert!(!match_any_regex(Some(&re), "sys_admin"));
}

fn make_compiled_meta(users: Option<Vec<String>>, ips: Option<Vec<String>>) -> CompiledMetaFilters {
    let incl = IncludeFilters { users, ips, ..IncludeFilters::default() };
    CompiledMetaFilters::try_from_include_exclude(&incl, &ExcludeFilters::default()).unwrap()
}

#[test]
fn test_compiled_meta_unconfigured_passes() {
    let compiled = make_compiled_meta(None, None);
    assert!(compiled.should_keep(&m("tx", "1.2.3.4", "any_user", None)));
}

#[test]
fn test_compiled_meta_and_semantics() {
    let compiled = make_compiled_meta(Some(vec!["^admin".to_string()]), Some(vec!["^192\\.168".to_string()]));
    assert!(compiled.should_keep(&m("tx", "192.168.1.1", "admin_dba", None)));
    assert!(!compiled.should_keep(&m("tx", "10.0.0.1", "admin_dba", None)));
    assert!(!compiled.should_keep(&m("tx", "192.168.1.1", "sys_user", None)));
}

#[test]
fn test_compiled_meta_single_field_or() {
    let incl =
        IncludeFilters { users: Some(vec!["^admin".to_string(), ".*_dba$".to_string()]), ..IncludeFilters::default() };
    let compiled = CompiledMetaFilters::try_from_include_exclude(&incl, &ExcludeFilters::default()).unwrap();
    assert!(compiled.should_keep(&m("tx", "ip", "admin_user", None)));
    assert!(compiled.should_keep(&m("tx", "ip", "sys_dba", None)));
    assert!(!compiled.should_keep(&m("tx", "ip", "regular_user", None)));
}

#[test]
fn test_compiled_meta_tags_none_rejected() {
    let incl = IncludeFilters { tags: Some(vec!["^SEL".to_string()]), ..IncludeFilters::default() };
    let compiled = CompiledMetaFilters::try_from_include_exclude(&incl, &ExcludeFilters::default()).unwrap();
    assert!(!compiled.should_keep(&m("tx", "ip", "user", None)));
    assert!(compiled.should_keep(&m("tx", "ip", "user", Some("SELECT"))));
    assert!(!compiled.should_keep(&m("tx", "ip", "user", Some("INSERT"))));
}

#[test]
fn test_compiled_meta_trxids_and() {
    let mut trxid_set = TrxidSet::default();
    trxid_set.insert("TX123".to_string());
    let incl =
        IncludeFilters { users: Some(vec!["^admin".to_string()]), trxids: Some(trxid_set), ..IncludeFilters::default() };
    let compiled = CompiledMetaFilters::try_from_include_exclude(&incl, &ExcludeFilters::default()).unwrap();
    assert!(compiled.should_keep(&m("TX123", "ip", "admin_user", None)));
    assert!(!compiled.should_keep(&m("TX999", "ip", "admin_user", None)));
    assert!(!compiled.should_keep(&m("TX123", "ip", "other_user", None)));
}

#[test]
fn test_t1_meta_has_filters_with_exclude_usernames() {
    let exclude = ExcludeFilters { users: Some(vec!["guest".to_string()]), ..ExcludeFilters::default() };
    assert!(exclude.has_filters());
}

#[test]
fn test_t1_meta_has_filters_all_none_is_false() {
    assert!(!IncludeFilters::default().has_filters());
    assert!(!ExcludeFilters::default().has_filters());
}

#[test]
fn test_t1_compiled_from_meta_exclude_usernames() {
    let exclude = ExcludeFilters { users: Some(vec!["^guest".to_string()]), ..ExcludeFilters::default() };
    let compiled = CompiledMetaFilters::try_from_include_exclude(&IncludeFilters::default(), &exclude).unwrap();
    assert!(compiled.exclude_usernames.is_some());
}

#[test]
fn test_t1_compiled_from_meta_exclude_none() {
    let compiled =
        CompiledMetaFilters::try_from_include_exclude(&IncludeFilters::default(), &ExcludeFilters::default()).unwrap();
    assert!(compiled.exclude_usernames.is_none());
}

#[test]
fn test_t1_has_any_filters_include_only() {
    let incl = IncludeFilters { users: Some(vec!["admin".to_string()]), ..IncludeFilters::default() };
    let compiled = CompiledMetaFilters::try_from_include_exclude(&incl, &ExcludeFilters::default()).unwrap();
    assert_eq!(compiled.has_any_filters(), compiled.has_filters());
}

#[test]
fn test_t1_has_any_filters_exclude_only() {
    let exclude = ExcludeFilters { users: Some(vec!["guest".to_string()]), ..ExcludeFilters::default() };
    let compiled = CompiledMetaFilters::try_from_include_exclude(&IncludeFilters::default(), &exclude).unwrap();
    assert!(compiled.has_any_filters());
    assert!(!compiled.has_filters());
}

fn make_compiled_with_exclude(exclude_users: Option<Vec<String>>, exclude_ips: Option<Vec<String>>) -> CompiledMetaFilters {
    let exclude = ExcludeFilters { users: exclude_users, ips: exclude_ips, ..ExcludeFilters::default() };
    CompiledMetaFilters::try_from_include_exclude(&IncludeFilters::default(), &exclude).unwrap()
}

#[test]
fn test_exclude_username_drops_matching_record() {
    let compiled = make_compiled_with_exclude(Some(vec!["^guest".to_string()]), None);
    assert!(!compiled.should_keep(&m("tx", "1.2.3.4", "guest_01", None)));
}

#[test]
fn test_exclude_username_retains_nonmatching_record() {
    let compiled = make_compiled_with_exclude(Some(vec!["^guest".to_string()]), None);
    assert!(compiled.should_keep(&m("tx", "1.2.3.4", "admin_dba", None)));
}

#[test]
fn test_exclude_ip_drops_matching_record() {
    let compiled = make_compiled_with_exclude(None, Some(vec!["^10\\.0".to_string()]));
    assert!(!compiled.should_keep(&m("tx", "10.0.0.1", "user", None)));
    assert!(compiled.should_keep(&m("tx", "192.168.1.1", "user", None)));
}

#[test]
fn test_exclude_or_veto_any_hit_drops() {
    let compiled = make_compiled_with_exclude(Some(vec!["guest".to_string()]), Some(vec!["^10".to_string()]));
    assert!(!compiled.should_keep(&m("tx", "10.0.0.1", "admin", None)));
}

#[test]
fn test_exclude_or_veto_no_hit_passes() {
    let compiled = make_compiled_with_exclude(Some(vec!["guest".to_string()]), Some(vec!["^10".to_string()]));
    assert!(compiled.should_keep(&m("tx", "192.168.1.1", "admin", None)));
}

fn include_admin_exclude_ten() -> CompiledMetaFilters {
    let incl = IncludeFilters { users: Some(vec!["^admin".to_string()]), ..IncludeFilters::default() };
    let exclude = ExcludeFilters { ips: Some(vec!["^10".to_string()]), ..ExcludeFilters::default() };
    CompiledMetaFilters::try_from_include_exclude(&incl, &exclude).unwrap()
}

#[test]
fn test_exclude_with_include_veto_wins() {
    assert!(!include_admin_exclude_ten().should_keep(&m("tx", "10.0.0.1", "admin", None)));
}

#[test]
fn test_exclude_with_include_both_pass() {
    assert!(include_admin_exclude_ten().should_keep(&m("tx", "192.168.1.1", "admin", None)));
}

#[test]
fn test_exclude_with_include_include_fails() {
    assert!(!include_admin_exclude_ten().should_keep(&m("tx", "192.168.1.1", "sys_user", None)));
}

fn exclude_sel_tags() -> CompiledMetaFilters {
    let exclude = ExcludeFilters { tags: Some(vec!["^SEL".to_string()]), ..ExcludeFilters::default() };
    CompiledMetaFilters::try_from_include_exclude(&IncludeFilters::default(), &exclude).unwrap()
}

#[test]
fn test_exclude_tags_drops_matching() {
    assert!(!exclude_sel_tags().should_keep(&m("tx", "ip", "user", Some("SELECT"))));
}

#[test]
fn test_exclude_tags_retains_no_tag() {
    assert!(exclude_sel_tags().should_keep(&m("tx", "ip", "user", None)));
}

#[test]
fn test_exclude_tags_retains_nonmatching() {
    assert!(exclude_sel_tags().should_keep(&m("tx", "ip", "user", Some("INSERT"))));
}

#[test]
fn test_has_any_filters_exclude_only() {
    let exclude = ExcludeFilters { users: Some(vec!["guest".to_string()]), ..ExcludeFilters::default() };
    let compiled = CompiledMetaFilters::try_from_include_exclude(&IncludeFilters::default(), &exclude).unwrap();
    assert!(compiled.has_any_filters());
    assert!(!compiled.has_filters());
}

#[test]
fn test_meta_has_filters_with_exclude() {
    let exclude = ExcludeFilters { users: Some(vec!["x".to_string()]), ..ExcludeFilters::default() };
    assert!(exclude.has_filters());
}

#[test]
fn test_meta_has_filters_all_none() {
    assert!(!IncludeFilters::default().has_filters());
    assert!(!ExcludeFilters::default().has_filters());
}

#[test]
fn test_exclude_invalid_regex_validate_fails() {
    let exclude = ExcludeFilters { users: Some(vec!["[invalid".to_string()]), ..ExcludeFilters::default() };
    let result = CompiledMetaFilters::try_from_include_exclude(&IncludeFilters::default(), &exclude);
    assert!(result.is_err());
}

#[test]
fn test_compiled_sql_include_regex() {
    let sf = SqlFilters { includes: Some(vec!["^SELECT".to_string()]), excludes: None };
    let compiled = CompiledSqlFilters::try_from_sql_filters(&sf).unwrap();
    assert!(compiled.matches("SELECT * FROM t"));
    assert!(!compiled.matches("INSERT INTO t VALUES (1)"));
}

#[test]
fn test_compiled_sql_exclude_regex() {
    let sf = SqlFilters { includes: None, excludes: Some(vec!["DROP".to_string()]) };
    let compiled = CompiledSqlFilters::try_from_sql_filters(&sf).unwrap();
    assert!(compiled.matches("SELECT 1"));
    assert!(!compiled.matches("DROP TABLE t"));
}

#[test]
fn trxid_set_from_ids_counts_distinct() {
    let s = TrxidSet::from_ids(vec!["a".into(), "b".into(), "a".into()]);
    assert_eq!(s.len(), 2);
    assert!(!s.is_empty());
    assert!(TrxidSet::new().is_empty());
}

use dm_database_sqllog2db::features::filters::RawFiltersFeature;

fn raw() -> RawFiltersFeature {
    RawFiltersFeature {
        enable: true,
        includes: None,
        exclude: None,
        indicators: IndicatorFilters::default(),
        sql: SqlFilters::default(),
        record_sql: SqlFilters::default(),
        usernames: None,
        client_ips: None,
        sess_ids: None,
        thrd_ids: None,
        statements: None,
        appnames: None,
        tags: None,
        start_ts: None,
        end_ts: None,
        trxids: None,
        exclude_usernames: None,
        exclude_client_ips: None,
        exclude_sess_ids: None,
        exclude_thrd_ids: None,
        exclude_statements: None,
        exclude_appnames: None,
        exclude_tags: None,
    }
}

fn strings(v: &[&str]) -> Option<Vec<String>> {
    Some(v.iter().map(|s| s.to_string()).collect())
}

#[test]
fn test_filters_toml_deserialization_with_trxids_and_exec_ids() {
    let mut r = raw();
    r.trxids = Some(TrxidSet::from_ids(vec!["123".into(), "456".into()]));
    r.indicators.exec_ids = Some([1_i64, 2, 3].into_iter().collect());
    let filters = FiltersFeature::from(r);
    assert!(filters.includes.trxids.is_some());
    assert_eq!(filters.includes.trxids.unwrap().len(), 2);
    assert!(filters.indicators.exec_ids.is_some());
    assert_eq!(filters.indicators.exec_ids.unwrap().len(), 3);
}

#[test]
fn test_new_nested_format_include() {
    let mut r = raw();
    r.includes = Some(IncludeFilters {
        users: strings(&["user1"]),
        ips: strings(&["192.168.1.1"]),
        sessions: strings(&["s001"]),
        threads: strings(&["t001"]),
        statements: strings(&["SELECT", "INSERT"]),
        apps: strings(&["myapp"]),
        tags: strings(&["audit"]),
        start_ts: Some("2024-01-01T00:00:00".into()),
        end_ts: Some("2024-12-31T23:59:59".into()),
        trxids: Some(TrxidSet::from_ids(vec!["123456".into()])),
    });
    let filters = FiltersFeature::from(r);
    assert_eq!(filters.includes.users, Some(vec!["user1".to_string()]));
    assert_eq!(filters.includes.ips, Some(vec!["192.168.1.1".to_string()]));
    assert!(filters.includes.trxids.is_some());
    assert_eq!(filters.includes.trxids.unwrap().len(), 1);
}

#[test]
fn test_new_nested_format_exclude() {
    let mut r = raw();
    r.exclude = Some(ExcludeFilters {
        users: strings(&["admin"]),
        ips: strings(&["10.0.0.1"]),
        sessions: strings(&["s999"]),
        threads: strings(&["t999"]),
        statements: strings(&["DROP"]),
        apps: strings(&["badapp"]),
        tags: strings(&["sys"]),
    });
    let filters = FiltersFeature::from(r);
    assert_eq!(filters.exclude.users, Some(vec!["admin".to_string()]));
    assert_eq!(filters.exclude.ips, Some(vec!["10.0.0.1".to_string()]));
}

#[test]
fn test_backward_compat_flat_format() {
    let mut r = raw();
    r.usernames = strings(&["user1"]);
    r.exclude_usernames = strings(&["admin"]);
    r.client_ips = strings(&["192.168.1.1"]);
    r.exclude_client_ips = strings(&["10.0.0.1"]);
    r.sess_ids = strings(&["s001"]);
    r.thrd_ids = strings(&["t001"]);
    r.exclude_sess_ids = strings(&["s999"]);
    r.exclude_thrd_ids = strings(&["t999"]);
    r.statements = strings(&["SELECT"]);
    r.exclude_statements = strings(&["DROP"]);
    r.appnames = strings(&["myapp"]);
    r.exclude_appnames = strings(&["badapp"]);
    r.tags = strings(&["audit"]);
    r.exclude_tags = strings(&["sys"]);
    r.start_ts = Some("2024-01-01T00:00:00".into());
    r.end_ts = Some("2024-12-31T23:59:59".into());
    r.trxids = Some(TrxidSet::from_ids(vec!["123".into()]));
    let filters = FiltersFeature::from(r);
    assert_eq!(filters.includes.users, Some(vec!["user1".to_string()]));
    assert_eq!(filters.includes.ips, Some(vec!["192.168.1.1".to_string()]));
    assert!(filters.includes.trxids.is_some());
    assert_eq!(filters.includes.trxids.unwrap().len(), 1);
    assert_eq!(filters.exclude.users, Some(vec!["admin".to_string()]));
    assert_eq!(filters.exclude.ips, Some(vec!["10.0.0.1".to_string()]));
}

#[test]
fn test_mixed_format_new_format_wins_and_warns() {
    let mut r = raw();
    r.usernames = strings(&["old_user"]);
    r.includes = Some(IncludeFilters { users: strings(&["new_user"]), ..IncludeFilters::default() });
    assert!(r.mixes_include_formats());
    let filters = FiltersFeature::from(r);
    assert_eq!(filters.includes.users, Some(vec!["new_user".to_string()]));
    assert!(!filters.includes.users.as_ref().unwrap().contains(&"old_user".to_string()));
}

#[test]
fn mixed_exclude_formats_detected() {
    let mut r = raw();
    assert!(!r.mixes_exclude_formats());
    r.exclude_tags = strings(&["sys"]);
    assert!(!r.mixes_exclude_formats());
    r.exclude = Some(ExcludeFilters::default());
    assert!(r.mixes_exclude_formats());
}
