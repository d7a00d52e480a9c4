//! The transaction pre-scan: which record filters it builds, and which records it keeps.
use crate::features::filters::{exec_id_set_contents, exec_id_set_to_vec, IndicatorFilters, SqlFilters};
use vstd::prelude::*;

verus! {

/// One condition of the pre-scan, as the log parser's filter builder states it.
#[derive(Debug)]
pub enum FilterSpec {
    /// The execution time is at least this many milliseconds.
    ExecTimeAtLeast(u32),
    /// The row count is above this number.
    RowCountAbove(u32),
    /// Every record.
    AnyRecord,
    /// The execution id is this one.
    ExecIdIs(i64),
    /// The SQL text contains this text.
    SqlContains(String),
}

/// The filters of the minimum runtime and minimum row count, in that order: a row count
/// minimum of zero admits every record, any other minimum `m` asks for more than `m - 1`.
pub open spec fn threshold_filters(ind: IndicatorFilters) -> Seq<FilterSpec> {
    let t = match ind.min_runtime_ms {
        Some(ms) => seq![FilterSpec::ExecTimeAtLeast(ms)],
        None => Seq::empty(),
    };
    let r = match ind.min_row_count {
        Some(m) => if m == 0 {
            seq![FilterSpec::AnyRecord]
        } else {
            seq![FilterSpec::RowCountAbove((m - 1) as u32)]
        },
        None => Seq::empty(),
    };
    t + r
}

/// The execution id of an id filter.
pub open spec fn filter_exec_id(f: FilterSpec) -> i64 {
    match f {
        FilterSpec::ExecIdIs(id) => id,
        _ => 0,
    }
}

/// The filters of the indicators: the runtime and row count thresholds first, then
/// one filter per listed execution id (in the set's iteration order, each id once).
pub fn build_indicator_filters(indicators: &IndicatorFilters) -> (filters: Vec<FilterSpec>)
    ensures
        filters@.take(threshold_filters(*indicators).len() as int) == threshold_filters(*indicators),
        forall|k: int|
            threshold_filters(*indicators).len() <= k < filters@.len() ==> #[trigger] filters@[k] is ExecIdIs,
        filters@.skip(threshold_filters(*indicators).len() as int).map_values(|f: FilterSpec| filter_exec_id(f)).to_set()
            == (match indicators.exec_ids {
            Some(s) => exec_id_set_contents(s),
            None => Set::empty(),
        }),
        filters@.skip(threshold_filters(*indicators).len() as int).map_values(|f: FilterSpec| filter_exec_id(f)).no_duplicates(),
{
    let mut filters: Vec<FilterSpec> = Vec::new();
    if let Some(min_ms) = indicators.min_runtime_ms {
        filters.push(FilterSpec::ExecTimeAtLeast(min_ms));
    }
    if let Some(min_r) = indicators.min_row_count {
        if min_r == 0 {
            filters.push(FilterSpec::AnyRecord);
        } else {
            filters.push(FilterSpec::RowCountAbove(min_r - 1));
        }
    }
    let ghost head = threshold_filters(*indicators);
    assert(filters@ =~= head);
    let ids: Vec<i64> = match &indicators.exec_ids {
        Some(s) => exec_id_set_to_vec(s),
        None => Vec::new(),
    };
    let h = filters.len();
    let n = ids.len();
    let mut k: usize = 0;
    while k < n
        invariant
            n == ids@.len(),
            h == head.len(),
            k <= n,
            filters@.len() == h + k,
            filters@.take(h as int) == head,
            forall|j: int| h <= j < filters@.len() ==> #[trigger] filters@[j] is ExecIdIs,
            filters@.skip(h as int).map_values(|f: FilterSpec| filter_exec_id(f)) == ids@.take(k as int),
        decreases n - k,
    {
        filters.push(FilterSpec::ExecIdIs(ids[k]));
        proof {
            assert(filters@.take(h as int) =~= head);
            assert(filters@.skip(h as int).map_values(|f: FilterSpec| filter_exec_id(f)) =~= ids@.take(k + 1));
        }
        k = k + 1;
    }
    proof {
        assert(ids@.take(n as int) =~= ids@);
        if indicators.exec_ids is None {
            assert(ids@.to_set() =~= Set::<i64>::empty());
        }
    }
    filters
}

/// One text filter per pattern, in order.
fn text_filters(patterns: &Option<Vec<String>>) -> (filters: Vec<FilterSpec>)
    ensures
        filters.len() == (match patterns {
            Some(v) => v.len(),
            None => 0,
        }),
        forall|k: int| 0 <= k < filters.len() ==> (#[trigger] filters@[k] matches FilterSpec::SqlContains(p)
            && p@ == patterns->Some_0@[k]@),
{
    let mut filters: Vec<FilterSpec> = Vec::new();
    match patterns {
        Some(v) => {
            let n = v.len();
            let mut k: usize = 0;
            while k < n
                invariant
                    n == v.len(),
                    k <= n,
                    filters.len() == k,
                    forall|j: int| 0 <= j < k ==> (#[trigger] filters@[j] matches FilterSpec::SqlContains(p)
                        && p@ == v@[j]@),
                decreases n - k,
            {
                filters.push(FilterSpec::SqlContains(v[k].clone()));
                k = k + 1;
            }
        },
        None => {},
    }
    filters
}

/// One SQL-contains filter per include pattern, in order (none when not configured).
pub fn build_sql_include_filters(sf: &SqlFilters) -> (filters: Vec<FilterSpec>)
    ensures
        filters.len() == (match sf.includes {
            Some(v) => v.len(),
            None => 0,
        }),
        forall|k: int| 0 <= k < filters.len() ==> (#[trigger] filters@[k] matches FilterSpec::SqlContains(p)
            && p@ == sf.includes->Some_0@[k]@),
{
    text_filters(&sf.includes)
}

/// One SQL-contains filter per exclude pattern, in order (none when not configured).
pub fn build_sql_exclude_filters(sf: &SqlFilters) -> (filters: Vec<FilterSpec>)
    ensures
        filters.len() == (match sf.excludes {
            Some(v) => v.len(),
            None => 0,
        }),
        forall|k: int| 0 <= k < filters.len() ==> (#[trigger] filters@[k] matches FilterSpec::SqlContains(p)
            && p@ == sf.excludes->Some_0@[k]@),
{
    text_filters(&sf.excludes)
}

/// Some entry is true.
pub open spec fn any_true(s: Seq<bool>) -> bool {
    exists|k: int| 0 <= k < s.len() && #[trigger] s[k]
}

/// Whether the pre-scan keeps a record's transaction, given what each filter said of
/// the record: an indicator filter matched, or (with SQL filters configured) some
/// include filter matched (or there are none) and no exclude filter matched. The two
/// paths are independent.
pub open spec fn prescan_selects(
    indicator_hits: Seq<bool>,
    has_sql_filters: bool,
    include_hits: Seq<bool>,
    exclude_hits: Seq<bool>,
) -> bool {
    let indicator_match = indicator_hits.len() > 0 && any_true(indicator_hits);
    let include_ok = include_hits.len() == 0 || any_true(include_hits);
    let exclude_ok = exclude_hits.len() == 0 || !any_true(exclude_hits);
    indicator_match || (has_sql_filters && include_ok && exclude_ok)
}

fn any_hit(s: &[bool]) -> (b: bool)
    ensures
        b == any_true(s@),
{
    let n = s.len();
    let mut k: usize = 0;
    while k < n
        invariant
            n == s@.len(),
            k <= n,
            forall|j: int| 0 <= j < k ==> !#[trigger] s@[j],
        decreases n - k,
    {
        if s[k] {
            assert(s@[k as int]);
            return true;
        }
        k = k + 1;
    }
    false
}

/// Whether the pre-scan keeps a record's transaction id; see [`prescan_selects`].
pub fn prescan_record_selected(
    indicator_hits: &[bool],
    has_sql_filters: bool,
    include_hits: &[bool],
    exclude_hits: &[bool],
) -> (b: bool)
    ensures
        b == prescan_selects(indicator_hits@, has_sql_filters, include_hits@, exclude_hits@),
{
    let indicator_match = indicator_hits.len() > 0 && any_hit(indicator_hits);
    let sql_match = has_sql_filters && {
        let include_ok = include_hits.len() == 0 || any_hit(include_hits);
        let exclude_ok = exclude_hits.len() == 0 || !any_hit(exclude_hits);
        include_ok && exclude_ok
    };
    indicator_match || sql_match
}

/// The two selection paths of the pre-scan: an indicator filter that matched selects
/// the record whatever the SQL filters say (the SQL exclude list included); without an
/// indicator match, the record is selected exactly when SQL filters are configured,
/// some include filter matched (or there is none) and no exclude filter matched.
pub proof fn lemma_prescan_paths(ind: Seq<bool>, has_sql: bool, inc: Seq<bool>, exc: Seq<bool>)
    ensures
        (exists|k: int| 0 <= k < ind.len() && ind[k]) ==> prescan_selects(ind, has_sql, inc, exc),
        !(exists|k: int| 0 <= k < ind.len() && ind[k]) ==> (prescan_selects(ind, has_sql, inc, exc) == (has_sql
            && (inc.len() == 0 || exists|k: int| 0 <= k < inc.len() && inc[k])
            && !(exists|k: int| 0 <= k < exc.len() && exc[k]))),
{
}

} // verus!
