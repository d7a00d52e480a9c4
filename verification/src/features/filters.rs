//! Filter configuration and the compiled record filters used on the hot path.
use crate::error::{ConfigError, Error};
use crate::features::pattern::{regex_compile_error, regex_matches, Pattern};
use compact_str::CompactString;
use vstd::prelude::*;

verus! {

/// The hasher of the `ahash` crate, used by the filter sets.
#[verifier::external_type_specification]
#[verifier::external_body]
pub struct ExAhashRandomState(ahash::RandomState);

/// The set of transaction ids a filter keeps: an `ahash` set of compact strings.
#[verifier::external_body]
#[derive(Debug)]
pub struct TrxidSet {
    ids: ahash::HashSet<CompactString>,
}

/// The set of execution ids an indicator filter keeps.
pub type ExecIdSet = ahash::HashSet<i64>;

/// The transaction ids a set holds, as text.
pub uninterp spec fn trxid_set_contents(s: TrxidSet) -> Set<Seq<char>>;

/// The execution ids a set holds.
pub uninterp spec fn exec_id_set_contents(s: ExecIdSet) -> Set<i64>;

/// `Default` of the `ahash` set: an empty set.
#[verifier::external_body]
fn trxid_set_new() -> (s: TrxidSet)
    ensures
        trxid_set_contents(s) == Set::<Seq<char>>::empty(),
{
    TrxidSet { ids: ahash::HashSet::default() }
}

/// `HashSet::insert` of a transaction id, converted with `CompactString::from`;
/// the set then also holds `id`.
#[verifier::external_body]
fn trxid_set_insert(s: &mut TrxidSet, id: String)
    ensures
        trxid_set_contents(*final(s)) == trxid_set_contents(*old(s)).insert(id@),
{
    s.ids.insert(CompactString::from(id));
}

/// `HashSet::contains` of a transaction id given as text.
#[verifier::external_body]
fn trxid_set_contains(s: &TrxidSet, id: &str) -> (b: bool)
    ensures
        b == trxid_set_contents(*s).contains(id@),
{
    s.ids.contains(id)
}

/// `HashSet::len` of a transaction id set.
#[verifier::external_body]
fn trxid_set_len(s: &TrxidSet) -> (n: usize)
    ensures
        n == trxid_set_contents(*s).len(),
{
    s.ids.len()
}

/// `HashSet::is_empty` of a transaction id set.
#[verifier::external_body]
fn trxid_set_is_empty(s: &TrxidSet) -> (b: bool)
    ensures
        b == (trxid_set_contents(*s) == Set::<Seq<char>>::empty()),
{
    s.ids.is_empty()
}

/// `HashSet::clone` of a transaction id set: the copy holds the same ids.
#[verifier::external_body]
fn trxid_set_clone(s: &TrxidSet) -> (c: TrxidSet)
    ensures
        trxid_set_contents(c) == trxid_set_contents(*s),
{
    TrxidSet { ids: s.ids.clone() }
}

impl Clone for TrxidSet {
    fn clone(&self) -> (c: Self)
        ensures
            trxid_set_contents(c) == trxid_set_contents(*self),
    {
        trxid_set_clone(self)
    }
}

impl Default for TrxidSet {
    fn default() -> (s: Self)
        ensures
            trxid_set_contents(s) == Set::<Seq<char>>::empty(),
    {
        trxid_set_new()
    }
}

impl TrxidSet {
    /// An empty set.
    pub fn new() -> (s: Self)
        ensures
            trxid_set_contents(s) == Set::<Seq<char>>::empty(),
    {
        trxid_set_new()
    }

    /// A set of the given ids.
    pub fn from_ids(ids: Vec<String>) -> (s: Self)
        ensures
            trxid_set_contents(s) == id_texts(ids@),
    {
        let mut s = trxid_set_new();
        add_ids(&mut s, &ids);
        assert(trxid_set_contents(s) =~= id_texts(ids@));
        s
    }

    /// Adds one id.
    pub fn insert(&mut self, id: String)
        ensures
            trxid_set_contents(*final(self)) == trxid_set_contents(*old(self)).insert(id@),
    {
        trxid_set_insert(self, id)
    }

    /// Whether the set holds `id`.
    pub fn contains(&self, id: &str) -> (b: bool)
        ensures
            b == trxid_set_contents(*self).contains(id@),
    {
        trxid_set_contains(self, id)
    }

    /// How many ids the set holds.
    pub fn len(&self) -> (n: usize)
        ensures
            n == trxid_set_contents(*self).len(),
    {
        trxid_set_len(self)
    }

    /// Whether the set holds no id.
    pub fn is_empty(&self) -> (b: bool)
        ensures
            b == (trxid_set_contents(*self) == Set::<Seq<char>>::empty()),
    {
        trxid_set_is_empty(self)
    }
}

/// The text of the ids in a list.
pub open spec fn id_texts(ids: Seq<String>) -> Set<Seq<char>> {
    Set::new(|x: Seq<char>| exists|j: int| 0 <= j < ids.len() && #[trigger] ids[j]@ == x)
}

/// Adds every id of `ids` to the set.
fn add_ids(set: &mut TrxidSet, ids: &Vec<String>)
    ensures
        trxid_set_contents(*final(set)) == trxid_set_contents(*old(set)).union(id_texts(ids@)),
{
    let ghost base = trxid_set_contents(*set);
    let mut i: usize = 0;
    while i < ids.len()
        invariant
            i <= ids@.len(),
            trxid_set_contents(*set) == base.union(id_texts(ids@.take(i as int))),
        decreases ids@.len() - i,
    {
        trxid_set_insert(set, ids[i].clone());
        proof {
            assert(id_texts(ids@.take(i + 1)) =~= id_texts(ids@.take(i as int)).insert(ids@[i as int]@)) by {
                assert forall|x: Seq<char>| #[trigger] id_texts(ids@.take(i + 1)).contains(x)
                    implies id_texts(ids@.take(i as int)).insert(ids@[i as int]@).contains(x) by {
                    let j = choose|j: int| 0 <= j < i + 1 && #[trigger] ids@.take(i + 1)[j]@ == x;
                    if j < i {
                        assert(ids@.take(i as int)[j] == ids@.take(i + 1)[j]);
                    }
                }
                assert forall|x: Seq<char>| #[trigger] id_texts(ids@.take(i as int)).insert(ids@[i as int]@).contains(x)
                    implies id_texts(ids@.take(i + 1)).contains(x) by {
                    if x == ids@[i as int]@ {
                        assert(ids@.take(i + 1)[i as int] == ids@[i as int]);
                    } else {
                        let j = choose|j: int| 0 <= j < i && #[trigger] ids@.take(i as int)[j]@ == x;
                        assert(ids@.take(i + 1)[j] == ids@.take(i as int)[j]);
                    }
                }
            }
            assert(trxid_set_contents(*set) =~= base.union(id_texts(ids@.take(i + 1))));
        }
        i = i + 1;
    }
    assert(ids@.take(ids@.len() as int) =~= ids@);
}

/// `HashSet::is_empty` of an execution id set.
#[verifier::external_body]
fn exec_id_set_is_empty(s: &ExecIdSet) -> (b: bool)
    ensures
        b == (exec_id_set_contents(*s) == Set::<i64>::empty()),
{
    s.is_empty()
}

/// `HashSet::contains` of an execution id set.
#[verifier::external_body]
fn exec_id_set_contains(s: &ExecIdSet, id: i64) -> (b: bool)
    ensures
        b == exec_id_set_contents(*s).contains(id),
{
    s.contains(&id)
}

/// `HashSet::iter` of an execution id set, collected: every id once, in the set's
/// iteration order (which depends on the hasher's seed, so no order is stated).
#[verifier::external_body]
pub(crate) fn exec_id_set_to_vec(s: &ExecIdSet) -> (v: Vec<i64>)
    ensures
        v@.to_set() == exec_id_set_contents(*s),
        v@.no_duplicates(),
{
    s.iter().copied().collect()
}

/// The metadata fields of a record that the filters look at.
#[derive(Debug)]
pub struct RecordMeta<'a> {
    pub trxid: &'a str,
    pub ip: &'a str,
    pub sess: &'a str,
    pub thrd: &'a str,
    pub user: &'a str,
    pub stmt: &'a str,
    pub app: &'a str,
    pub tag: Option<&'a str>,
}

/// A list that is configured and holds at least one entry.
pub open spec fn listed(o: Option<Vec<String>>) -> bool {
    o matches Some(v) && v@.len() > 0
}

/// A transaction id set that is configured and holds at least one id.
pub open spec fn trxids_listed(o: Option<TrxidSet>) -> bool {
    o matches Some(t) && trxid_set_contents(t) != Set::<Seq<char>>::empty()
}

/// Whether an optional list is configured and non-empty.
fn is_listed(o: &Option<Vec<String>>) -> (b: bool)
    ensures
        b == listed(*o),
{
    match o {
        Some(v) => v.len() > 0,
        None => false,
    }
}

/// Include filters (the `include` sub-table).
#[derive(Debug, Clone)]
pub struct IncludeFilters {
    pub users: Option<Vec<String>>,
    pub ips: Option<Vec<String>>,
    pub sessions: Option<Vec<String>>,
    pub threads: Option<Vec<String>>,
    pub statements: Option<Vec<String>>,
    pub apps: Option<Vec<String>>,
    pub tags: Option<Vec<String>>,
    pub start_ts: Option<String>,
    pub end_ts: Option<String>,
    pub trxids: Option<TrxidSet>,
}

impl Default for IncludeFilters {
    fn default() -> (f: Self)
        ensures
            f.users is None && f.ips is None && f.sessions is None && f.threads is None,
            f.statements is None && f.apps is None && f.tags is None,
            f.start_ts is None && f.end_ts is None && f.trxids is None,
    {
        IncludeFilters {
            users: None,
            ips: None,
            sessions: None,
            threads: None,
            statements: None,
            apps: None,
            tags: None,
            start_ts: None,
            end_ts: None,
            trxids: None,
        }
    }
}

impl IncludeFilters {
    /// Whether any include condition is configured.
    pub open spec fn spec_has_filters(self) -> bool {
        listed(self.users) || listed(self.ips) || listed(self.sessions) || listed(self.threads)
            || listed(self.statements) || listed(self.apps) || listed(self.tags)
            || self.start_ts is Some || self.end_ts is Some || trxids_listed(self.trxids)
    }

    pub fn has_filters(&self) -> (b: bool)
        ensures
            b == self.spec_has_filters(),
    {
        is_listed(&self.users) || is_listed(&self.ips) || is_listed(&self.sessions)
            || is_listed(&self.threads) || is_listed(&self.statements) || is_listed(&self.apps)
            || is_listed(&self.tags) || self.start_ts.is_some() || self.end_ts.is_some()
            || match &self.trxids {
            Some(t) => !t.is_empty(),
            None => false,
        }
    }
}

/// Exclude filters (the `exclude` sub-table).
#[derive(Debug, Clone)]
pub struct ExcludeFilters {
    pub users: Option<Vec<String>>,
    pub ips: Option<Vec<String>>,
    pub sessions: Option<Vec<String>>,
    pub threads: Option<Vec<String>>,
    pub statements: Option<Vec<String>>,
    pub apps: Option<Vec<String>>,
    pub tags: Option<Vec<String>>,
}

impl Default for ExcludeFilters {
    fn default() -> (f: Self)
        ensures
            f.users is None && f.ips is None && f.sessions is None && f.threads is None,
            f.statements is None && f.apps is None && f.tags is None,
    {
        ExcludeFilters {
            users: None,
            ips: None,
            sessions: None,
            threads: None,
            statements: None,
            apps: None,
            tags: None,
        }
    }
}

impl ExcludeFilters {
    /// Whether any exclude condition is configured.
    pub open spec fn spec_has_filters(self) -> bool {
        listed(self.users) || listed(self.ips) || listed(self.sessions) || listed(self.threads)
            || listed(self.statements) || listed(self.apps) || listed(self.tags)
    }

    pub fn has_filters(&self) -> (b: bool)
        ensures
            b == self.spec_has_filters(),
    {
        is_listed(&self.users) || is_listed(&self.ips) || is_listed(&self.sessions)
            || is_listed(&self.threads) || is_listed(&self.statements) || is_listed(&self.apps)
            || is_listed(&self.tags)
    }
}

/// Indicator filters (transaction level: a hit keeps the whole transaction).
#[derive(Debug, Clone)]
pub struct IndicatorFilters {
    pub exec_ids: Option<ExecIdSet>,
    pub min_runtime_ms: Option<u32>,
    pub min_row_count: Option<u32>,
}

impl Default for IndicatorFilters {
    fn default() -> (f: Self)
        ensures
            f.exec_ids is None && f.min_runtime_ms is None && f.min_row_count is None,
    {
        IndicatorFilters { exec_ids: None, min_runtime_ms: None, min_row_count: None }
    }
}

impl IndicatorFilters {
    /// Whether any indicator is configured.
    pub open spec fn spec_has_filters(self) -> bool {
        (self.exec_ids matches Some(s) && exec_id_set_contents(s) != Set::<i64>::empty())
            || self.min_runtime_ms is Some || self.min_row_count is Some
    }

    pub fn has_filters(&self) -> (b: bool)
        ensures
            b == self.spec_has_filters(),
    {
        (match &self.exec_ids {
            Some(s) => !exec_id_set_is_empty(s),
            None => false,
        }) || self.min_runtime_ms.is_some() || self.min_row_count.is_some()
    }

    /// Whether a record meets any configured indicator.
    pub open spec fn spec_matches(self, exec_id: i64, runtime_ms_ceil: i64, row_count: i64) -> bool {
        &&& self.spec_has_filters()
        &&& {
            ||| (self.exec_ids matches Some(s) && exec_id_set_contents(s).contains(exec_id))
            ||| (self.min_runtime_ms matches Some(t) && runtime_ms_ceil >= t)
            ||| (self.min_row_count matches Some(m) && row_count >= m)
        }
    }

    /// Whether a record meets any configured indicator: its execution id is listed, its
    /// execution time reaches the minimum, or its row count reaches the minimum. With no
    /// indicator configured nothing matches. The execution time is given as the least
    /// whole number of milliseconds at or above it (`i64::MIN` when it is not a number),
    /// which reaches a whole-millisecond minimum exactly when the time itself does.
    pub fn matches(&self, exec_id: i64, runtime_ms_ceil: i64, row_count: i64) -> (b: bool)
        ensures
            b == self.spec_matches(exec_id, runtime_ms_ceil, row_count),
    {
        if !self.has_filters() {
            return false;
        }
        if let Some(ids) = &self.exec_ids {
            if exec_id_set_contains(ids, exec_id) {
                return true;
            }
        }
        if let Some(min_t) = self.min_runtime_ms {
            if runtime_ms_ceil >= min_t as i64 {
                return true;
            }
        }
        if let Some(min_r) = self.min_row_count {
            if row_count >= min_r as i64 {
                return true;
            }
        }
        false
    }
}

/// Whether the bytes of `needle` start at position `i` of `hay`.
pub open spec fn occurs_at(hay: Seq<u8>, needle: Seq<u8>, i: int) -> bool {
    0 <= i && i + needle.len() <= hay.len() && hay.subrange(i, i + needle.len()) == needle
}

/// Whether `needle` occurs in `hay` as a contiguous run of bytes.
pub open spec fn bytes_contain(hay: Seq<u8>, needle: Seq<u8>) -> bool {
    exists|i: int| #[trigger] occurs_at(hay, needle, i)
}

/// Whether `needle` occurs in `hay` (as `str::contains` decides it, on the UTF-8 bytes).
pub open spec fn text_contains(hay: Seq<char>, needle: Seq<char>) -> bool {
    bytes_contain(vstd::utf8::encode_utf8(hay), vstd::utf8::encode_utf8(needle))
}

/// Whether the bytes of `needle` start at position `at` of `hay`.
fn bytes_at(hay: &[u8], needle: &[u8], at: usize) -> (b: bool)
    requires
        at + needle@.len() <= hay@.len(),
    ensures
        b == (hay@.subrange(at as int, at + needle@.len()) == needle@),
{
    let hay_len = hay.len();
    let mut j: usize = 0;
    while j < needle.len()
        invariant
            j <= needle@.len(),
            hay_len == hay@.len(),
            at + needle@.len() <= hay@.len(),
            forall|k: int| 0 <= k < j ==> hay@[at + k] == needle@[k],
        decreases needle@.len() - j,
    {
        assert(at + j < hay@.len());
        if hay[at + j] != needle[j] {
            assert(hay@.subrange(at as int, at + needle@.len())[j as int] != needle@[j as int]);
            return false;
        }
        j = j + 1;
    }
    assert(hay@.subrange(at as int, at + needle@.len()) =~= needle@);
    true
}

/// `str::contains` for a string pattern: whether `needle` occurs in `hay`.
pub fn str_contains(hay: &str, needle: &str) -> (b: bool)
    ensures
        b == text_contains(hay@, needle@),
{
    let h = hay.as_bytes();
    let n = needle.as_bytes();
    assert(h@ == vstd::utf8::encode_utf8(hay@));
    assert(n@ == vstd::utf8::encode_utf8(needle@));
    if n.len() == 0 {
        assert(h@.subrange(0, 0) =~= n@);
        assert(occurs_at(h@, n@, 0));
        return true;
    }
    let h_len = h.len();
    if n.len() > h_len {
        return false;
    }
    let last = h_len - n.len();
    let mut i: usize = 0;
    while i <= last
        invariant
            last + n@.len() == h@.len(),
            h_len == h@.len(),
            n@.len() >= 1,
            h@ == vstd::utf8::encode_utf8(hay@),
            n@ == vstd::utf8::encode_utf8(needle@),
            forall|k: int| 0 <= k < i ==> !#[trigger] occurs_at(h@, n@, k),
        decreases last + 1 - i,
    {
        if bytes_at(h, n, i) {
            assert(occurs_at(h@, n@, i as int));
            return true;
        }
        i = i + 1;
    }
    false
}

/// SQL text filters of the transaction-level pre-scan: plain substring matching.
///
/// The `includes` / `excludes` entries are literal substrings, not regular
/// expressions; record-level regular expressions are `record_sql`'s.
#[derive(Debug, Clone)]
pub struct SqlFilters {
    /// The SQL must contain one of these (not configured: every SQL passes).
    pub includes: Option<Vec<String>>,
    /// The SQL must contain none of these.
    pub excludes: Option<Vec<String>>,
}

impl Default for SqlFilters {
    fn default() -> (f: Self)
        ensures
            f.includes is None && f.excludes is None,
    {
        SqlFilters { includes: None, excludes: None }
    }
}

/// Whether `sql` contains one of `patterns`.
pub open spec fn contains_any(patterns: Seq<String>, sql: Seq<char>) -> bool {
    exists|i: int| 0 <= i < patterns.len() && text_contains(sql, #[trigger] patterns[i]@)
}

/// Whether `sql` contains any of the listed substrings.
fn contains_any_of(patterns: &Vec<String>, sql: &str) -> (b: bool)
    ensures
        b == contains_any(patterns@, sql@),
{
    let mut i: usize = 0;
    while i < patterns.len()
        invariant
            i <= patterns@.len(),
            forall|k: int| 0 <= k < i ==> !text_contains(sql@, #[trigger] patterns@[k]@),
        decreases patterns@.len() - i,
    {
        if str_contains(sql, patterns[i].as_str()) {
            return true;
        }
        i = i + 1;
    }
    false
}

impl SqlFilters {
    /// Whether any SQL substring is configured.
    pub open spec fn spec_has_filters(self) -> bool {
        listed(self.includes) || listed(self.excludes)
    }

    /// Whether `sql` passes: some filter is configured, the SQL contains one of the
    /// includes (when any are listed) and none of the excludes.
    pub open spec fn spec_matches(self, sql: Seq<char>) -> bool {
        &&& self.spec_has_filters()
        &&& (self.includes matches Some(v) ==> (v@.len() > 0 ==> contains_any(v@, sql)))
        &&& (self.excludes matches Some(v) ==> !contains_any(v@, sql))
    }

    pub fn has_filters(&self) -> (b: bool)
        ensures
            b == self.spec_has_filters(),
    {
        is_listed(&self.includes) || is_listed(&self.excludes)
    }

    pub fn matches(&self, sql: &str) -> (b: bool)
        ensures
            b == self.spec_matches(sql@),
    {
        if !self.has_filters() {
            return false;
        }
        let include_match = match &self.includes {
            Some(patterns) => if patterns.len() == 0 {
                true
            } else {
                contains_any_of(patterns, sql)
            },
            None => true,
        };
        if !include_match {
            return false;
        }
        match &self.excludes {
            Some(patterns) => {
                if contains_any_of(patterns, sql) {
                    return false;
                }
            },
            None => {},
        }
        true
    }
}

/// The filter configuration (`[features.filters]`).
#[derive(Debug, Clone)]
pub struct FiltersFeature {
    /// Whether filtering is switched on at all.
    pub enable: bool,
    /// Include conditions.
    pub includes: IncludeFilters,
    /// Exclude conditions.
    pub exclude: ExcludeFilters,
    /// Indicator filters (transaction level; need a pre-scan).
    pub indicators: IndicatorFilters,
    /// SQL substring filters (transaction level; matched during the pre-scan).
    pub sql: SqlFilters,
    /// SQL regular expression filters, judged record by record.
    pub record_sql: SqlFilters,
}

impl Default for FiltersFeature {
    fn default() -> (f: Self)
        ensures
            !f.enable,
            !f.includes.spec_has_filters() && !f.exclude.spec_has_filters(),
            !f.indicators.spec_has_filters() && !f.sql.spec_has_filters() && !f.record_sql.spec_has_filters(),
    {
        FiltersFeature {
            enable: false,
            includes: IncludeFilters::default(),
            exclude: ExcludeFilters::default(),
            indicators: IndicatorFilters::default(),
            sql: SqlFilters::default(),
            record_sql: SqlFilters::default(),
        }
    }
}

/// The ids a transaction id set holds, or none when it is not configured.
pub open spec fn trxid_contents_or_empty(o: Option<TrxidSet>) -> Set<Seq<char>> {
    match o {
        Some(t) => trxid_set_contents(t),
        None => Set::empty(),
    }
}

impl FiltersFeature {
    /// Whether filtering is on and some condition is configured.
    pub open spec fn spec_has_filters(self) -> bool {
        self.enable && (self.includes.spec_has_filters() || self.exclude.spec_has_filters()
            || self.indicators.spec_has_filters() || self.sql.spec_has_filters()
            || self.record_sql.spec_has_filters())
    }

    /// Whether filtering is on and a transaction-level filter (indicators or SQL
    /// substrings) is configured, which needs a pre-scan.
    pub open spec fn spec_has_transaction_filters(self) -> bool {
        self.enable && (self.indicators.spec_has_filters() || self.sql.spec_has_filters())
    }

    pub fn has_filters(&self) -> (b: bool)
        ensures
            b == self.spec_has_filters(),
    {
        if !self.enable {
            return false;
        }
        self.includes.has_filters() || self.exclude.has_filters() || self.indicators.has_filters()
            || self.sql.has_filters() || self.record_sql.has_filters()
    }

    pub fn has_transaction_filters(&self) -> (b: bool)
        ensures
            b == self.spec_has_transaction_filters(),
    {
        if !self.enable {
            return false;
        }
        self.indicators.has_filters() || self.sql.has_filters()
    }

    /// Adds the transaction ids found by the pre-scan to the include set, so that the
    /// main scan keeps those whole transactions. Nothing changes when filtering is off
    /// or no id was found.
    pub fn merge_found_trxids(&mut self, trxids: Vec<String>)
        ensures
            !old(self).enable || trxids@.len() == 0 ==> trxid_contents_or_empty(final(self).includes.trxids)
                == trxid_contents_or_empty(old(self).includes.trxids)
                && final(self).includes.trxids is Some == old(self).includes.trxids is Some,
            old(self).enable && trxids@.len() > 0 ==> final(self).includes.trxids is Some
                && trxid_contents_or_empty(final(self).includes.trxids)
                == trxid_contents_or_empty(old(self).includes.trxids).union(id_texts(trxids@)),
            final(self).enable == old(self).enable,
            final(self).includes.users == old(self).includes.users,
            final(self).includes.ips == old(self).includes.ips,
            final(self).includes.sessions == old(self).includes.sessions,
            final(self).includes.threads == old(self).includes.threads,
            final(self).includes.statements == old(self).includes.statements,
            final(self).includes.apps == old(self).includes.apps,
            final(self).includes.tags == old(self).includes.tags,
            final(self).includes.start_ts == old(self).includes.start_ts,
            final(self).includes.end_ts == old(self).includes.end_ts,
            final(self).exclude == old(self).exclude,
            final(self).indicators == old(self).indicators,
            final(self).sql == old(self).sql,
            final(self).record_sql == old(self).record_sql,
    {
        if !self.enable || trxids.len() == 0 {
            return;
        }
        let mut set = match self.includes.trxids.take() {
            Some(t) => t,
            None => trxid_set_new(),
        };
        add_ids(&mut set, &trxids);
        self.includes.trxids = Some(set);
    }
}

/// Filtering is only ever needed when a filter is configured: a configuration that
/// needs the transaction pre-scan also counts as having filters.
pub proof fn lemma_transaction_filters_are_filters(f: FiltersFeature)
    ensures
        f.spec_has_transaction_filters() ==> f.spec_has_filters(),
        !f.enable ==> !f.spec_has_filters() && !f.spec_has_transaction_filters(),
{
}

/// The error a failed pattern list compiles to: the field, the pattern and the reason.
pub type PatternFault = (Seq<char>, Seq<char>, Seq<char>);

/// The position of the first pattern at or after `i` that does not compile.
pub open spec fn first_bad_pattern(ps: Seq<Seq<char>>, i: int) -> Option<int>
    decreases ps.len() - i,
{
    if i < 0 || i >= ps.len() {
        None
    } else if regex_compile_error(ps[i]) is Some {
        Some(i)
    } else {
        first_bad_pattern(ps, i + 1)
    }
}

/// The fault a configured pattern list gives when compiled, if any: the first
/// pattern that does not compile, with the reason `invalid regex: <error>`.
pub open spec fn compile_fault(field: Seq<char>, ps: Option<Seq<Seq<char>>>) -> Option<PatternFault> {
    match ps {
        None => None,
        Some(v) => match first_bad_pattern(v, 0) {
            None => None,
            Some(i) => match regex_compile_error(v[i]) {
                Some(msg) => Some((field, v[i], "invalid regex: "@ + msg)),
                None => None,
            },
        },
    }
}

/// The compiled form of a configured list: nothing for an absent or empty list,
/// otherwise the patterns in order.
pub open spec fn expected_sources(ps: Option<Seq<Seq<char>>>) -> Option<Seq<Seq<char>>> {
    match ps {
        None => None,
        Some(v) => if v.len() == 0 {
            None
        } else {
            Some(v)
        },
    }
}

/// The texts the compiled patterns of a field were made from.
pub open spec fn pattern_sources(o: Option<Vec<Pattern>>) -> Option<Seq<Seq<char>>> {
    match o {
        None => None,
        Some(v) => Some(v@.map_values(|p: Pattern| p.source())),
    }
}

/// The texts of an optional list given as a slice.
pub open spec fn slice_views(ps: Option<&[String]>) -> Option<Seq<Seq<char>>> {
    match ps {
        None => None,
        Some(s) => Some(crate::text::string_views(s@)),
    }
}

/// The texts of an optional list.
pub open spec fn list_views(ps: Option<Vec<String>>) -> Option<Seq<Seq<char>>> {
    match ps {
        None => None,
        Some(v) => Some(crate::text::string_views(v@)),
    }
}

/// The field, value and reason of an invalid-value configuration error.
pub open spec fn fault_of(e: Error) -> Option<PatternFault> {
    match e {
        Error::Config(ConfigError::InvalidValue { field, value, reason }) => Some((field@, value@, reason@)),
        _ => None,
    }
}

proof fn lemma_first_bad_pattern_skips(ps: Seq<Seq<char>>, j: int, i: int)
    requires
        0 <= j <= i <= ps.len(),
        forall|k: int| j <= k < i ==> regex_compile_error(#[trigger] ps[k]) is None,
    ensures
        first_bad_pattern(ps, j) == first_bad_pattern(ps, i),
    decreases i - j,
{
    if j < i {
        lemma_first_bad_pattern_skips(ps, j + 1, i);
    }
}

/// Compiles a list of regular expressions. An absent or empty list compiles to
/// nothing (not configured); an invalid pattern gives `ConfigError::InvalidValue`
/// naming `field`, the pattern and the regex error.
pub fn compile_patterns(field: &str, patterns: Option<&[String]>) -> (r: Result<Option<Vec<Pattern>>, Error>)
    ensures
        match r {
            Ok(o) => compile_fault(field@, slice_views(patterns)) is None
                && pattern_sources(o) == expected_sources(slice_views(patterns)),
            Err(e) => compile_fault(field@, slice_views(patterns)) is Some
                && fault_of(e) == compile_fault(field@, slice_views(patterns)),
        },
{
    if patterns.is_none() {
        return Ok(None);
    }
    let v = patterns.unwrap();
    if v.len() == 0 {
        return Ok(None);
    }
    let ghost views = crate::text::string_views(v@);
    let mut out: Vec<Pattern> = Vec::new();
    let mut i: usize = 0;
    while i < v.len()
        invariant
            i <= v@.len(),
            patterns == Some(v),
            views == crate::text::string_views(v@),
            out@.len() == i,
            forall|k: int| 0 <= k < i ==> (#[trigger] out@[k]).source() == views[k],
            forall|k: int| 0 <= k < i ==> regex_compile_error(#[trigger] views[k]) is None,
        decreases v@.len() - i,
    {
        match Pattern::compile(v[i].as_str()) {
            Ok(p) => {
                out.push(p);
            },
            Err(msg) => {
                proof {
                    lemma_first_bad_pattern_skips(views, 0, i as int);
                    assert(views[i as int] == v@[i as int]@);
                }
                let mut reason = "invalid regex: ".to_owned();
                reason.append(msg.as_str());
                let value = v[i].clone();
                let e = Error::Config(ConfigError::InvalidValue { field: field.to_owned(), value, reason });
                assert(regex_compile_error(views[i as int]) == Some(msg@));
                assert(first_bad_pattern(views, i as int) == Some(i as int));
                assert(slice_views(patterns) == Some(views));
                assert(fault_of(e) == compile_fault(field@, slice_views(patterns)));
                return Err(e);
            },
        }
        i = i + 1;
    }
    proof {
        lemma_first_bad_pattern_skips(views, 0, v@.len() as int);
        assert(out@.map_values(|p: Pattern| p.source()) =~= views);
    }
    Ok(Some(out))
}

/// Whether one of the patterns matches `val`.
pub open spec fn any_matches(ps: Seq<Pattern>, val: Seq<char>) -> bool {
    exists|k: int| 0 <= k < ps.len() && regex_matches(#[trigger] ps[k].source(), val)
}

/// Whether `val` satisfies an optional pattern list: an absent or empty list is
/// satisfied by anything, otherwise one pattern must match.
pub open spec fn passes(ps: Option<Seq<Pattern>>, val: Seq<char>) -> bool {
    match ps {
        None => true,
        Some(s) => s.len() == 0 || any_matches(s, val),
    }
}

/// Whether one of the patterns of a slice matches `val`.
fn any_pattern_matches(ps: &[Pattern], val: &str) -> (b: bool)
    ensures
        b == any_matches(ps@, val@),
{
    let mut k: usize = 0;
    while k < ps.len()
        invariant
            k <= ps@.len(),
            forall|j: int| 0 <= j < k ==> !regex_matches(#[trigger] ps@[j].source(), val@),
        decreases ps@.len() - k,
    {
        if ps[k].is_match(val) {
            return true;
        }
        k = k + 1;
    }
    false
}

/// `None` means not configured (anything passes); otherwise one pattern must match.
pub fn match_any_regex(patterns: Option<&[Pattern]>, val: &str) -> (b: bool)
    ensures
        b == passes(match patterns {
            Some(s) => Some(s@),
            None => None,
        }, val@),
{
    match patterns {
        None => true,
        Some(p) => p.len() == 0 || any_pattern_matches(p, val),
    }
}

/// The patterns of an optional compiled list.
pub open spec fn compiled(o: Option<Vec<Pattern>>) -> Option<Seq<Pattern>> {
    match o {
        None => None,
        Some(v) => Some(v@),
    }
}

/// A compiled list as a slice.
fn as_patterns(o: &Option<Vec<Pattern>>) -> (r: Option<&[Pattern]>)
    ensures
        match r {
            Some(s) => compiled(*o) == Some(s@),
            None => compiled(*o) is None,
        },
{
    match o {
        Some(v) => Some(v.as_slice()),
        None => None,
    }
}

/// A configured list as a slice.
fn as_strings(o: &Option<Vec<String>>) -> (r: Option<&[String]>)
    ensures
        slice_views(r) == list_views(*o),
{
    match o {
        Some(v) => Some(v.as_slice()),
        None => None,
    }
}

/// The compiled metadata filters used on the hot path, built once at start-up.
#[derive(Debug)]
pub struct CompiledMetaFilters {
    pub usernames: Option<Vec<Pattern>>,
    pub client_ips: Option<Vec<Pattern>>,
    pub sess_ids: Option<Vec<Pattern>>,
    pub thrd_ids: Option<Vec<Pattern>>,
    pub statements: Option<Vec<Pattern>>,
    pub appnames: Option<Vec<Pattern>>,
    pub tags: Option<Vec<Pattern>>,
    pub trxids: Option<TrxidSet>,
    pub exclude_usernames: Option<Vec<Pattern>>,
    pub exclude_client_ips: Option<Vec<Pattern>>,
    pub exclude_sess_ids: Option<Vec<Pattern>>,
    pub exclude_thrd_ids: Option<Vec<Pattern>>,
    pub exclude_statements: Option<Vec<Pattern>>,
    pub exclude_appnames: Option<Vec<Pattern>>,
    pub exclude_tags: Option<Vec<Pattern>>,
}

/// Whether an exclude list vetoes `val`: it is configured and (being empty, or
/// through one of its patterns) matches.
pub open spec fn vetoes(o: Option<Vec<Pattern>>, val: Seq<char>) -> bool {
    o is Some && passes(compiled(o), val)
}

/// The first fault of a list of outcomes.
pub open spec fn first_fault(outcomes: Seq<Option<PatternFault>>) -> Option<PatternFault>
    decreases outcomes.len(),
{
    if outcomes.len() == 0 {
        None
    } else if outcomes[0] is Some {
        outcomes[0]
    } else {
        first_fault(outcomes.drop_first())
    }
}

proof fn lemma_first_fault(outcomes: Seq<Option<PatternFault>>, k: int)
    requires
        0 <= k <= outcomes.len(),
        forall|j: int| 0 <= j < k ==> (#[trigger] outcomes[j]) is None,
    ensures
        k < outcomes.len() && outcomes[k] is Some ==> first_fault(outcomes) == outcomes[k],
        k == outcomes.len() ==> first_fault(outcomes) is None,
    decreases k,
{
    if k > 0 {
        let rest = outcomes.drop_first();
        assert forall|j: int| 0 <= j < k - 1 implies (#[trigger] rest[j]) is None by {
            assert(rest[j] == outcomes[j + 1]);
        }
        lemma_first_fault(rest, k - 1);
    }
}

/// The compile outcomes of the include lists, in field order.
pub open spec fn include_outcomes(inc: IncludeFilters) -> Seq<Option<PatternFault>> {
    seq![
        compile_fault("features.filters.include.users"@, list_views(inc.users)),
        compile_fault("features.filters.include.ips"@, list_views(inc.ips)),
        compile_fault("features.filters.include.sessions"@, list_views(inc.sessions)),
        compile_fault("features.filters.include.threads"@, list_views(inc.threads)),
        compile_fault("features.filters.include.statements"@, list_views(inc.statements)),
        compile_fault("features.filters.include.apps"@, list_views(inc.apps)),
        compile_fault("features.filters.include.tags"@, list_views(inc.tags)),
    ]
}

/// The compile outcomes of the exclude lists, in field order.
pub open spec fn exclude_outcomes(exc: ExcludeFilters) -> Seq<Option<PatternFault>> {
    seq![
        compile_fault("features.filters.exclude.users"@, list_views(exc.users)),
        compile_fault("features.filters.exclude.ips"@, list_views(exc.ips)),
        compile_fault("features.filters.exclude.sessions"@, list_views(exc.sessions)),
        compile_fault("features.filters.exclude.threads"@, list_views(exc.threads)),
        compile_fault("features.filters.exclude.statements"@, list_views(exc.statements)),
        compile_fault("features.filters.exclude.apps"@, list_views(exc.apps)),
        compile_fault("features.filters.exclude.tags"@, list_views(exc.tags)),
    ]
}

/// The first compile fault of the fourteen metadata lists, in field order.
pub open spec fn meta_compile_fault(inc: IncludeFilters, exc: ExcludeFilters) -> Option<PatternFault> {
    first_fault(include_outcomes(inc) + exclude_outcomes(exc))
}

impl CompiledMetaFilters {
    /// Whether the compiled lists are exactly the configured ones.
    pub open spec fn compiled_from(self, inc: IncludeFilters, exc: ExcludeFilters) -> bool {
        &&& pattern_sources(self.usernames) == expected_sources(list_views(inc.users))
        &&& pattern_sources(self.client_ips) == expected_sources(list_views(inc.ips))
        &&& pattern_sources(self.sess_ids) == expected_sources(list_views(inc.sessions))
        &&& pattern_sources(self.thrd_ids) == expected_sources(list_views(inc.threads))
        &&& pattern_sources(self.statements) == expected_sources(list_views(inc.statements))
        &&& pattern_sources(self.appnames) == expected_sources(list_views(inc.apps))
        &&& pattern_sources(self.tags) == expected_sources(list_views(inc.tags))
        &&& self.trxids is Some == inc.trxids is Some
        &&& trxid_contents_or_empty(self.trxids) == trxid_contents_or_empty(inc.trxids)
        &&& pattern_sources(self.exclude_usernames) == expected_sources(list_views(exc.users))
        &&& pattern_sources(self.exclude_client_ips) == expected_sources(list_views(exc.ips))
        &&& pattern_sources(self.exclude_sess_ids) == expected_sources(list_views(exc.sessions))
        &&& pattern_sources(self.exclude_thrd_ids) == expected_sources(list_views(exc.threads))
        &&& pattern_sources(self.exclude_statements) == expected_sources(list_views(exc.statements))
        &&& pattern_sources(self.exclude_appnames) == expected_sources(list_views(exc.apps))
        &&& pattern_sources(self.exclude_tags) == expected_sources(list_views(exc.tags))
    }

    /// Compiles every include and exclude list; the first list (in field order)
    /// holding an invalid pattern gives `ConfigError::InvalidValue`.
    pub fn try_from_include_exclude(includes: &IncludeFilters, exclude: &ExcludeFilters) -> (r: Result<Self, Error>)
        ensures
            match r {
                Ok(c) => meta_compile_fault(*includes, *exclude) is None && c.compiled_from(*includes, *exclude),
                Err(e) => meta_compile_fault(*includes, *exclude) is Some
                    && fault_of(e) == meta_compile_fault(*includes, *exclude),
            },
    {
        let ghost outcomes = include_outcomes(*includes) + exclude_outcomes(*exclude);
        let usernames = match compile_patterns("features.filters.include.users", as_strings(&includes.users)) {
            Ok(c) => c,
            Err(e) => {
                proof {
                    lemma_first_fault(outcomes, 0);
                }
                return Err(e);
            },
        };
        let client_ips = match compile_patterns("features.filters.include.ips", as_strings(&includes.ips)) {
            Ok(c) => c,
            Err(e) => {
                proof {
                    lemma_first_fault(outcomes, 1);
                }
                return Err(e);
            },
        };
        let sess_ids = match compile_patterns("features.filters.include.sessions", as_strings(&includes.sessions)) {
            Ok(c) => c,
            Err(e) => {
                proof {
                    lemma_first_fault(outcomes, 2);
                }
                return Err(e);
            },
        };
        let thrd_ids = match compile_patterns("features.filters.include.threads", as_strings(&includes.threads)) {
            Ok(c) => c,
            Err(e) => {
                proof {
                    lemma_first_fault(outcomes, 3);
                }
                return Err(e);
            },
        };
        let statements = match compile_patterns("features.filters.include.statements", as_strings(&includes.statements)) {
            Ok(c) => c,
            Err(e) => {
                proof {
                    lemma_first_fault(outcomes, 4);
                }
                return Err(e);
            },
        };
        let appnames = match compile_patterns("features.filters.include.apps", as_strings(&includes.apps)) {
            Ok(c) => c,
            Err(e) => {
                proof {
                    lemma_first_fault(outcomes, 5);
                }
                return Err(e);
            },
        };
        let tags = match compile_patterns("features.filters.include.tags", as_strings(&includes.tags)) {
            Ok(c) => c,
            Err(e) => {
                proof {
                    lemma_first_fault(outcomes, 6);
                }
                return Err(e);
            },
        };
        let trxids = match &includes.trxids {
            Some(t) => Some(trxid_set_clone(t)),
            None => None,
        };
        let exclude_usernames = match compile_patterns("features.filters.exclude.users", as_strings(&exclude.users)) {
            Ok(c) => c,
            Err(e) => {
                proof {
                    lemma_first_fault(outcomes, 7);
                }
                return Err(e);
            },
        };
        let exclude_client_ips = match compile_patterns("features.filters.exclude.ips", as_strings(&exclude.ips)) {
            Ok(c) => c,
            Err(e) => {
                proof {
                    lemma_first_fault(outcomes, 8);
                }
                return Err(e);
            },
        };
        let exclude_sess_ids = match compile_patterns("features.filters.exclude.sessions", as_strings(&exclude.sessions)) {
            Ok(c) => c,
            Err(e) => {
                proof {
                    lemma_first_fault(outcomes, 9);
                }
                return Err(e);
            },
        };
        let exclude_thrd_ids = match compile_patterns("features.filters.exclude.threads", as_strings(&exclude.threads)) {
            Ok(c) => c,
            Err(e) => {
                proof {
                    lemma_first_fault(outcomes, 10);
                }
                return Err(e);
            },
        };
        let exclude_statements = match compile_patterns("features.filters.exclude.statements", as_strings(&exclude.statements)) {
            Ok(c) => c,
            Err(e) => {
                proof {
                    lemma_first_fault(outcomes, 11);
                }
                return Err(e);
            },
        };
        let exclude_appnames = match compile_patterns("features.filters.exclude.apps", as_strings(&exclude.apps)) {
            Ok(c) => c,
            Err(e) => {
                proof {
                    lemma_first_fault(outcomes, 12);
                }
                return Err(e);
            },
        };
        let exclude_tags = match compile_patterns("features.filters.exclude.tags", as_strings(&exclude.tags)) {
            Ok(c) => c,
            Err(e) => {
                proof {
                    lemma_first_fault(outcomes, 13);
                }
                return Err(e);
            },
        };
        proof {
            lemma_first_fault(outcomes, 14);
        }
        Ok(CompiledMetaFilters {
            usernames,
            client_ips,
            sess_ids,
            thrd_ids,
            statements,
            appnames,
            tags,
            trxids,
            exclude_usernames,
            exclude_client_ips,
            exclude_sess_ids,
            exclude_thrd_ids,
            exclude_statements,
            exclude_appnames,
            exclude_tags,
        })
    }

    /// Whether an include condition is compiled (exclude lists are not counted).
    pub open spec fn spec_has_filters(self) -> bool {
        self.usernames is Some || self.client_ips is Some || self.sess_ids is Some
            || self.thrd_ids is Some || self.statements is Some || self.appnames is Some
            || self.tags is Some || trxids_listed(self.trxids)
    }

    /// Whether any condition, include or exclude, is compiled.
    pub open spec fn spec_has_any_filters(self) -> bool {
        self.spec_has_filters() || self.exclude_usernames is Some || self.exclude_client_ips is Some
            || self.exclude_sess_ids is Some || self.exclude_thrd_ids is Some
            || self.exclude_statements is Some || self.exclude_appnames is Some
            || self.exclude_tags is Some
    }

    /// Whether an exclude list vetoes the record (any hit drops it). A record
    /// without a tag is never vetoed by the tag list.
    pub open spec fn spec_exclude_veto(self, meta: RecordMeta) -> bool {
        vetoes(self.exclude_usernames, meta.user@) || vetoes(self.exclude_client_ips, meta.ip@)
            || vetoes(self.exclude_sess_ids, meta.sess@) || vetoes(self.exclude_thrd_ids, meta.thrd@)
            || vetoes(self.exclude_statements, meta.stmt@) || vetoes(self.exclude_appnames, meta.app@)
            || (self.exclude_tags matches Some(v) && meta.tag matches Some(t) && any_matches(v@, t@))
    }

    /// Whether every configured include condition holds for the record (AND over
    /// fields, OR within a field; transaction ids match exactly).
    pub open spec fn spec_include_and(self, meta: RecordMeta) -> bool {
        &&& passes(compiled(self.usernames), meta.user@)
        &&& passes(compiled(self.client_ips), meta.ip@)
        &&& passes(compiled(self.sess_ids), meta.sess@)
        &&& passes(compiled(self.thrd_ids), meta.thrd@)
        &&& passes(compiled(self.statements), meta.stmt@)
        &&& passes(compiled(self.appnames), meta.app@)
        &&& (self.trxids matches Some(t) ==> (trxid_set_contents(t) == Set::<Seq<char>>::empty()
            || trxid_set_contents(t).contains(meta.trxid@)))
        &&& (self.tags matches Some(v) ==> match meta.tag {
            Some(t) => any_matches(v@, t@),
            None => v@.len() == 0,
        })
    }

    /// Whether a record is kept: no exclude list vetoes it and every include holds.
    pub open spec fn spec_should_keep(self, meta: RecordMeta) -> bool {
        !self.spec_exclude_veto(meta) && self.spec_include_and(meta)
    }

    pub fn has_filters(&self) -> (b: bool)
        ensures
            b == self.spec_has_filters(),
    {
        self.usernames.is_some() || self.client_ips.is_some() || self.sess_ids.is_some()
            || self.thrd_ids.is_some() || self.statements.is_some() || self.appnames.is_some()
            || self.tags.is_some() || match &self.trxids {
            Some(t) => !t.is_empty(),
            None => false,
        }
    }

    pub fn has_any_filters(&self) -> (b: bool)
        ensures
            b == self.spec_has_any_filters(),
    {
        self.has_filters() || self.exclude_usernames.is_some() || self.exclude_client_ips.is_some()
            || self.exclude_sess_ids.is_some() || self.exclude_thrd_ids.is_some()
            || self.exclude_statements.is_some() || self.exclude_appnames.is_some()
            || self.exclude_tags.is_some()
    }

    /// AND over the configured include fields, OR within a field; any exclude hit
    /// drops the record first.
    pub fn should_keep(&self, meta: &RecordMeta) -> (b: bool)
        ensures
            b == self.spec_should_keep(*meta),
    {
        if self.exclude_veto(meta) {
            return false;
        }
        self.include_and(meta)
    }

    fn exclude_veto(&self, meta: &RecordMeta) -> (b: bool)
        ensures
            b == self.spec_exclude_veto(*meta),
    {
        if self.exclude_usernames.is_some() && match_any_regex(as_patterns(&self.exclude_usernames), meta.user) {
            return true;
        }
        if self.exclude_client_ips.is_some() && match_any_regex(as_patterns(&self.exclude_client_ips), meta.ip) {
            return true;
        }
        if self.exclude_sess_ids.is_some() && match_any_regex(as_patterns(&self.exclude_sess_ids), meta.sess) {
            return true;
        }
        if self.exclude_thrd_ids.is_some() && match_any_regex(as_patterns(&self.exclude_thrd_ids), meta.thrd) {
            return true;
        }
        if self.exclude_statements.is_some() && match_any_regex(as_patterns(&self.exclude_statements), meta.stmt) {
            return true;
        }
        if self.exclude_appnames.is_some() && match_any_regex(as_patterns(&self.exclude_appnames), meta.app) {
            return true;
        }
        match (&self.exclude_tags, meta.tag) {
            (Some(excl_tags), Some(t)) => {
                if any_pattern_matches(excl_tags.as_slice(), t) {
                    return true;
                }
            },
            _ => {},
        }
        false
    }

    fn include_and(&self, meta: &RecordMeta) -> (b: bool)
        ensures
            b == self.spec_include_and(*meta),
    {
        if !match_any_regex(as_patterns(&self.usernames), meta.user) {
            return false;
        }
        if !match_any_regex(as_patterns(&self.client_ips), meta.ip) {
            return false;
        }
        if !match_any_regex(as_patterns(&self.sess_ids), meta.sess) {
            return false;
        }
        if !match_any_regex(as_patterns(&self.thrd_ids), meta.thrd) {
            return false;
        }
        if !match_any_regex(as_patterns(&self.statements), meta.stmt) {
            return false;
        }
        if !match_any_regex(as_patterns(&self.appnames), meta.app) {
            return false;
        }
        match &self.trxids {
            Some(trxids) => {
                if !trxids.is_empty() && !trxid_set_contains(trxids, meta.trxid) {
                    return false;
                }
            },
            None => {},
        }
        match &self.tags {
            Some(tag_patterns) => match meta.tag {
                Some(t) => {
                    if !any_pattern_matches(tag_patterns.as_slice(), t) {
                        return false;
                    }
                },
                None => {
                    if tag_patterns.len() != 0 {
                        return false;
                    }
                },
            },
            None => {},
        }
        true
    }
}

/// The compiled record-level SQL filters (`record_sql`, regular expressions).
#[derive(Debug)]
pub struct CompiledSqlFilters {
    pub include_patterns: Option<Vec<Pattern>>,
    pub exclude_patterns: Option<Vec<Pattern>>,
}

/// The first compile fault of the record-level SQL lists.
pub open spec fn sql_compile_fault(sf: SqlFilters) -> Option<PatternFault> {
    first_fault(seq![
        compile_fault("features.filters.record_sql.includes"@, list_views(sf.includes)),
        compile_fault("features.filters.record_sql.excludes"@, list_views(sf.excludes)),
    ])
}

impl CompiledSqlFilters {
    /// Compiles the record-level SQL lists; an invalid pattern gives
    /// `ConfigError::InvalidValue`.
    pub fn try_from_sql_filters(sf: &SqlFilters) -> (r: Result<Self, Error>)
        ensures
            match r {
                Ok(c) => sql_compile_fault(*sf) is None
                    && pattern_sources(c.include_patterns) == expected_sources(list_views(sf.includes))
                    && pattern_sources(c.exclude_patterns) == expected_sources(list_views(sf.excludes)),
                Err(e) => sql_compile_fault(*sf) is Some && fault_of(e) == sql_compile_fault(*sf),
            },
    {
        let ghost outcomes = seq![
            compile_fault("features.filters.record_sql.includes"@, list_views(sf.includes)),
            compile_fault("features.filters.record_sql.excludes"@, list_views(sf.excludes)),
        ];
        let include_patterns = match compile_patterns("features.filters.record_sql.includes", as_strings(&sf.includes)) {
            Ok(c) => c,
            Err(e) => {
                proof {
                    lemma_first_fault(outcomes, 0);
                }
                return Err(e);
            },
        };
        let exclude_patterns = match compile_patterns("features.filters.record_sql.excludes", as_strings(&sf.excludes)) {
            Ok(c) => c,
            Err(e) => {
                proof {
                    lemma_first_fault(outcomes, 1);
                }
                return Err(e);
            },
        };
        proof {
            lemma_first_fault(outcomes, 2);
        }
        Ok(CompiledSqlFilters { include_patterns, exclude_patterns })
    }

    pub fn has_filters(&self) -> (b: bool)
        ensures
            b == (self.include_patterns is Some || self.exclude_patterns is Some),
    {
        self.include_patterns.is_some() || self.exclude_patterns.is_some()
    }

    /// Whether the SQL passes: it matches one include pattern (when any are
    /// configured) and no exclude pattern.
    pub open spec fn spec_matches(self, sql: Seq<char>) -> bool {
        passes(compiled(self.include_patterns), sql)
            && !(self.exclude_patterns matches Some(v) && any_matches(v@, sql))
    }

    pub fn matches(&self, sql: &str) -> (b: bool)
        ensures
            b == self.spec_matches(sql@),
    {
        if !match_any_regex(as_patterns(&self.include_patterns), sql) {
            return false;
        }
        match &self.exclude_patterns {
            Some(excl) => {
                if any_pattern_matches(excl.as_slice(), sql) {
                    return false;
                }
            },
            None => {},
        }
        true
    }
}

/// An exclude hit always wins: a record that some exclude list vetoes is dropped,
/// whatever the include lists say; and with nothing compiled every record is kept.
pub proof fn lemma_exclude_veto_wins(c: CompiledMetaFilters, meta: RecordMeta)
    ensures
        c.spec_exclude_veto(meta) ==> !c.spec_should_keep(meta),
        !c.spec_has_any_filters() ==> c.spec_should_keep(meta),
{
}

/// Adding an include condition can only narrow what is kept: a record kept under
/// the stricter filters is kept under the looser ones (here, the same filters
/// without the user-name list).
pub proof fn lemma_include_conditions_narrow(c: CompiledMetaFilters, meta: RecordMeta)
    ensures
        c.spec_should_keep(meta) ==> (CompiledMetaFilters { usernames: None, ..c }).spec_should_keep(meta),
{
}

/// Compiled filters with no condition at all.
pub open spec fn no_meta_filters() -> CompiledMetaFilters {
    CompiledMetaFilters {
        usernames: None,
        client_ips: None,
        sess_ids: None,
        thrd_ids: None,
        statements: None,
        appnames: None,
        tags: None,
        trxids: None,
        exclude_usernames: None,
        exclude_client_ips: None,
        exclude_sess_ids: None,
        exclude_thrd_ids: None,
        exclude_statements: None,
        exclude_appnames: None,
        exclude_tags: None,
    }
}

/// Each include list is matched against its own field: with only that list compiled,
/// a record is kept exactly when the list is empty or one of its patterns matches the
/// field the list names (user name, client address, session, thread, statement,
/// application, tag); a record without a tag passes only an empty tag list.
pub proof fn lemma_include_lists_read_their_fields(ps: Vec<Pattern>, meta: RecordMeta)
    ensures
        (CompiledMetaFilters { usernames: Some(ps), ..no_meta_filters() }).spec_should_keep(meta) == (ps@.len() == 0 || exists|k: int| 0 <= k < ps@.len() && regex_matches(#[trigger] ps@[k].source(), meta.user@)),
        (CompiledMetaFilters { client_ips: Some(ps), ..no_meta_filters() }).spec_should_keep(meta) == (ps@.len() == 0 || exists|k: int| 0 <= k < ps@.len() && regex_matches(#[trigger] ps@[k].source(), meta.ip@)),
        (CompiledMetaFilters { sess_ids: Some(ps), ..no_meta_filters() }).spec_should_keep(meta) == (ps@.len() == 0 || exists|k: int| 0 <= k < ps@.len() && regex_matches(#[trigger] ps@[k].source(), meta.sess@)),
        (CompiledMetaFilters { thrd_ids: Some(ps), ..no_meta_filters() }).spec_should_keep(meta) == (ps@.len() == 0 || exists|k: int| 0 <= k < ps@.len() && regex_matches(#[trigger] ps@[k].source(), meta.thrd@)),
        (CompiledMetaFilters { statements: Some(ps), ..no_meta_filters() }).spec_should_keep(meta) == (ps@.len() == 0 || exists|k: int| 0 <= k < ps@.len() && regex_matches(#[trigger] ps@[k].source(), meta.stmt@)),
        (CompiledMetaFilters { appnames: Some(ps), ..no_meta_filters() }).spec_should_keep(meta) == (ps@.len() == 0 || exists|k: int| 0 <= k < ps@.len() && regex_matches(#[trigger] ps@[k].source(), meta.app@)),
        (CompiledMetaFilters { tags: Some(ps), ..no_meta_filters() }).spec_should_keep(meta) == match meta.tag {
            Some(t) => exists|k: int| 0 <= k < ps@.len() && regex_matches(#[trigger] ps@[k].source(), t@),
            None => ps@.len() == 0,
        },
{
}

/// Each exclude list is matched against its own field: with only that list compiled,
/// a record is dropped exactly when the list is empty or one of its patterns matches
/// the field the list names; the tag list drops only records whose tag one of its
/// patterns matches.
pub proof fn lemma_exclude_lists_read_their_fields(ps: Vec<Pattern>, meta: RecordMeta)
    ensures
        (CompiledMetaFilters { exclude_usernames: Some(ps), ..no_meta_filters() }).spec_should_keep(meta) == !(ps@.len() == 0 || exists|k: int| 0 <= k < ps@.len() && regex_matches(#[trigger] ps@[k].source(), meta.user@)),
        (CompiledMetaFilters { exclude_client_ips: Some(ps), ..no_meta_filters() }).spec_should_keep(meta) == !(ps@.len() == 0 || exists|k: int| 0 <= k < ps@.len() && regex_matches(#[trigger] ps@[k].source(), meta.ip@)),
        (CompiledMetaFilters { exclude_sess_ids: Some(ps), ..no_meta_filters() }).spec_should_keep(meta) == !(ps@.len() == 0 || exists|k: int| 0 <= k < ps@.len() && regex_matches(#[trigger] ps@[k].source(), meta.sess@)),
        (CompiledMetaFilters { exclude_thrd_ids: Some(ps), ..no_meta_filters() }).spec_should_keep(meta) == !(ps@.len() == 0 || exists|k: int| 0 <= k < ps@.len() && regex_matches(#[trigger] ps@[k].source(), meta.thrd@)),
        (CompiledMetaFilters { exclude_statements: Some(ps), ..no_meta_filters() }).spec_should_keep(meta) == !(ps@.len() == 0 || exists|k: int| 0 <= k < ps@.len() && regex_matches(#[trigger] ps@[k].source(), meta.stmt@)),
        (CompiledMetaFilters { exclude_appnames: Some(ps), ..no_meta_filters() }).spec_should_keep(meta) == !(ps@.len() == 0 || exists|k: int| 0 <= k < ps@.len() && regex_matches(#[trigger] ps@[k].source(), meta.app@)),
        (CompiledMetaFilters { exclude_tags: Some(ps), ..no_meta_filters() }).spec_should_keep(meta) == !(
        meta.tag matches Some(t) && exists|k: int| 0 <= k < ps@.len() && regex_matches(
            #[trigger] ps@[k].source(),
            t@,
        )),
{
}

/// The transaction id list is matched against the record's transaction id: with only
/// that list compiled, a record is kept exactly when the list is empty or holds the
/// record's id.
pub proof fn lemma_trxid_list_reads_transaction_id(t: TrxidSet, meta: RecordMeta)
    ensures
        (CompiledMetaFilters { trxids: Some(t), ..no_meta_filters() }).spec_should_keep(meta) == (
        trxid_set_contents(t) == Set::<Seq<char>>::empty() || trxid_set_contents(t).contains(meta.trxid@)),
{
}

/// The filter table as it is written in the configuration file: the `include` and
/// `exclude` sub-tables, and the older flat fields that are still accepted.
#[derive(Debug)]
pub struct RawFiltersFeature {
    pub enable: bool,
    /// The `include` sub-table (takes priority over the flat fields).
    pub includes: Option<IncludeFilters>,
    /// The `exclude` sub-table (takes priority over the flat `exclude_*` fields).
    pub exclude: Option<ExcludeFilters>,
    pub indicators: IndicatorFilters,
    pub sql: SqlFilters,
    pub record_sql: SqlFilters,
    pub usernames: Option<Vec<String>>,
    pub client_ips: Option<Vec<String>>,
    pub sess_ids: Option<Vec<String>>,
    pub thrd_ids: Option<Vec<String>>,
    pub statements: Option<Vec<String>>,
    pub appnames: Option<Vec<String>>,
    pub tags: Option<Vec<String>>,
    pub start_ts: Option<String>,
    pub end_ts: Option<String>,
    pub trxids: Option<TrxidSet>,
    pub exclude_usernames: Option<Vec<String>>,
    pub exclude_client_ips: Option<Vec<String>>,
    pub exclude_sess_ids: Option<Vec<String>>,
    pub exclude_thrd_ids: Option<Vec<String>>,
    pub exclude_statements: Option<Vec<String>>,
    pub exclude_appnames: Option<Vec<String>>,
    pub exclude_tags: Option<Vec<String>>,
}

impl RawFiltersFeature {
    /// Whether a flat include field is present.
    pub open spec fn spec_flat_includes_present(self) -> bool {
        self.usernames is Some || self.client_ips is Some || self.sess_ids is Some
            || self.thrd_ids is Some || self.statements is Some || self.appnames is Some
            || self.tags is Some || self.start_ts is Some || self.end_ts is Some
            || self.trxids is Some
    }

    /// Whether a flat exclude field is present.
    pub open spec fn spec_flat_excludes_present(self) -> bool {
        self.exclude_usernames is Some || self.exclude_client_ips is Some
            || self.exclude_sess_ids is Some || self.exclude_thrd_ids is Some
            || self.exclude_statements is Some || self.exclude_appnames is Some
            || self.exclude_tags is Some
    }

    /// Whether both the `include` sub-table and flat include fields are given (the
    /// flat fields are then ignored, which deserves a warning).
    pub fn mixes_include_formats(&self) -> (b: bool)
        ensures
            b == (self.includes is Some && self.spec_flat_includes_present()),
    {
        self.includes.is_some() && (self.usernames.is_some() || self.client_ips.is_some()
            || self.sess_ids.is_some() || self.thrd_ids.is_some() || self.statements.is_some()
            || self.appnames.is_some() || self.tags.is_some() || self.start_ts.is_some()
            || self.end_ts.is_some() || self.trxids.is_some())
    }

    /// Whether both the `exclude` sub-table and flat exclude fields are given.
    pub fn mixes_exclude_formats(&self) -> (b: bool)
        ensures
            b == (self.exclude is Some && self.spec_flat_excludes_present()),
    {
        self.exclude.is_some() && (self.exclude_usernames.is_some()
            || self.exclude_client_ips.is_some() || self.exclude_sess_ids.is_some()
            || self.exclude_thrd_ids.is_some() || self.exclude_statements.is_some()
            || self.exclude_appnames.is_some() || self.exclude_tags.is_some())
    }
}

/// The filter configuration a raw table stands for: the sub-tables when present,
/// otherwise the flat fields.
pub open spec fn filters_from_raw(raw: RawFiltersFeature) -> FiltersFeature {
    FiltersFeature {
        enable: raw.enable,
        includes: match raw.includes {
            Some(i) => i,
            None => IncludeFilters {
                users: raw.usernames,
                ips: raw.client_ips,
                sessions: raw.sess_ids,
                threads: raw.thrd_ids,
                statements: raw.statements,
                apps: raw.appnames,
                tags: raw.tags,
                start_ts: raw.start_ts,
                end_ts: raw.end_ts,
                trxids: raw.trxids,
            },
        },
        exclude: match raw.exclude {
            Some(e) => e,
            None => ExcludeFilters {
                users: raw.exclude_usernames,
                ips: raw.exclude_client_ips,
                sessions: raw.exclude_sess_ids,
                threads: raw.exclude_thrd_ids,
                statements: raw.exclude_statements,
                apps: raw.exclude_appnames,
                tags: raw.exclude_tags,
            },
        },
        indicators: raw.indicators,
        sql: raw.sql,
        record_sql: raw.record_sql,
    }
}

impl From<RawFiltersFeature> for FiltersFeature {
    fn from(raw: RawFiltersFeature) -> (f: Self) {
        let includes = match raw.includes {
            Some(i) => i,
            None => IncludeFilters {
                users: raw.usernames,
                ips: raw.client_ips,
                sessions: raw.sess_ids,
                threads: raw.thrd_ids,
                statements: raw.statements,
                apps: raw.appnames,
                tags: raw.tags,
                start_ts: raw.start_ts,
                end_ts: raw.end_ts,
                trxids: raw.trxids,
            },
        };
        let exclude = match raw.exclude {
            Some(e) => e,
            None => ExcludeFilters {
                users: raw.exclude_usernames,
                ips: raw.exclude_client_ips,
                sessions: raw.exclude_sess_ids,
                threads: raw.exclude_thrd_ids,
                statements: raw.exclude_statements,
                apps: raw.exclude_appnames,
                tags: raw.exclude_tags,
            },
        };
        FiltersFeature {
            enable: raw.enable,
            includes,
            exclude,
            indicators: raw.indicators,
            sql: raw.sql,
            record_sql: raw.record_sql,
        }
    }
}

impl vstd::std_specs::convert::FromSpecImpl<RawFiltersFeature> for FiltersFeature {
    open spec fn obeys_from_spec() -> bool {
        true
    }

    open spec fn from_spec(raw: RawFiltersFeature) -> FiltersFeature {
        filters_from_raw(raw)
    }
}

} // verus!
