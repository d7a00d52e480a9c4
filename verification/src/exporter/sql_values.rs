//! The SQLite parameter values of a record.
use crate::exporter::csv_row::{decimal_bytes, field_bytes, quoted, record_writable, utf8_of, LogRecord};
use crate::exporter::fields::{field_label, valid_indices, FIELD_COUNT};
use crate::exporter::util::{strip_ip_prefix, stripped_ip};
use vstd::prelude::*;
use vstd::string::StringSliceAdditionalSpecFns;

verus! {

/// A value bound to an SQL parameter.
#[derive(Debug)]
pub enum SqlValue {
    Null,
    Integer(i64),
    Text(String),
}

/// The value is the given text.
pub open spec fn is_text(v: SqlValue, s: Seq<char>) -> bool {
    v matches SqlValue::Text(t) && t@ == s
}

/// The value is the given integer.
pub open spec fn is_integer(v: SqlValue, n: int) -> bool {
    v matches SqlValue::Integer(x) && x == n
}

/// The value is the given text when there is one, and NULL otherwise.
pub open spec fn is_text_or_null(v: SqlValue, s: Option<Seq<char>>) -> bool {
    match s {
        Some(t) => is_text(v, t),
        None => v is Null,
    }
}

/// `v` is the value of column `i` of the record: texts as they are (the client address
/// without its IPv4-mapped prefix), a missing tag or normalized SQL as NULL, and the
/// performance figures only when the record has any (NULL otherwise).
pub open spec fn column_value(v: SqlValue, r: LogRecord, i: int, ns: Option<&str>) -> bool {
    if i == 0 {
        is_text(v, r.ts@)
    } else if i == 1 {
        is_integer(v, r.ep as int)
    } else if i == 2 {
        is_text(v, r.sess_id@)
    } else if i == 3 {
        is_text(v, r.thrd_id@)
    } else if i == 4 {
        is_text(v, r.username@)
    } else if i == 5 {
        is_text(v, r.trxid@)
    } else if i == 6 {
        is_text(v, r.statement@)
    } else if i == 7 {
        is_text(v, r.appname@)
    } else if i == 8 {
        v matches SqlValue::Text(t) && utf8_of(t@) == stripped_ip(utf8_of(r.client_ip@))
    } else if i == 9 {
        match r.tag {
            Some(t) => is_text(v, t@),
            None => v is Null,
        }
    } else if i == 10 {
        is_text(v, r.sql@)
    } else if i == 11 {
        if r.has_metrics() { is_integer(v, r.exec_time_ms as int) } else { v is Null }
    } else if i == 12 {
        if r.has_metrics() { is_integer(v, r.rowcount as int) } else { v is Null }
    } else if i == 13 {
        if r.has_metrics() { is_integer(v, r.exec_id as int) } else { v is Null }
    } else {
        match ns {
            Some(s) => is_text(v, s@),
            None => v is Null,
        }
    }
}

fn text_value(s: &str) -> (v: SqlValue)
    ensures
        is_text(v, s@),
{
    SqlValue::Text(s.to_owned())
}

/// The value of column `i` of the record.
fn column_value_of(r: &LogRecord, i: usize, ns: Option<&str>, has_metrics: bool) -> (v: SqlValue)
    requires
        i < FIELD_COUNT,
        record_writable(*r),
        has_metrics == r.has_metrics(),
    ensures
        column_value(v, *r, i as int, ns),
{
    match i {
        0 => text_value(r.ts.as_str()),
        1 => SqlValue::Integer(r.ep as i64),
        2 => text_value(r.sess_id.as_str()),
        3 => text_value(r.thrd_id.as_str()),
        4 => text_value(r.username.as_str()),
        5 => text_value(r.trxid.as_str()),
        6 => text_value(r.statement.as_str()),
        7 => text_value(r.appname.as_str()),
        8 => {
            let ip = strip_ip_prefix(r.client_ip.as_str());
            text_value(ip)
        },
        9 => match &r.tag {
            Some(t) => text_value(t.as_str()),
            None => SqlValue::Null,
        },
        10 => text_value(r.sql.as_str()),
        11 => if has_metrics { SqlValue::Integer(r.exec_time_ms) } else { SqlValue::Null },
        12 => if has_metrics { SqlValue::Integer(r.rowcount as i64) } else { SqlValue::Null },
        13 => if has_metrics { SqlValue::Integer(r.exec_id) } else { SqlValue::Null },
        _ => match ns {
            Some(s) => text_value(s),
            None => SqlValue::Null,
        },
    }
}

/// The parameter values of a record for the given columns, in the given order.
pub fn record_to_values(r: &LogRecord, normalized_sql: Option<&str>, ordered_indices: &[usize]) -> (values: Vec<SqlValue>)
    requires
        valid_indices(ordered_indices@),
        record_writable(*r),
    ensures
        values.len() == ordered_indices.len(),
        forall|k: int|
            0 <= k < values.len() ==> column_value(
                #[trigger] values@[k],
                *r,
                ordered_indices@[k] as int,
                normalized_sql,
            ),
{
    let has_metrics = r.exec_id != 0 || r.exec_time_positive || r.rowcount != 0;
    let mut values: Vec<SqlValue> = Vec::new();
    let n = ordered_indices.len();
    let mut k: usize = 0;
    while k < n
        invariant
            n == ordered_indices.len(),
            valid_indices(ordered_indices@),
            record_writable(*r),
            has_metrics == r.has_metrics(),
            k <= n,
            values.len() == k,
            forall|j: int|
                0 <= j < k ==> column_value(#[trigger] values@[j], *r, ordered_indices@[j] as int, normalized_sql),
        decreases n - k,
    {
        let i = ordered_indices[k];
        assert(i == ordered_indices@[k as int]);
        let v = column_value_of(r, i, normalized_sql, has_metrics);
        values.push(v);
        k = k + 1;
    }
    values
}

/// How a bound value reads in a CSV cell: a text as its UTF-8 bytes, an integer as its
/// decimal digits, NULL as nothing.
pub open spec fn csv_cell_of(v: SqlValue) -> Seq<u8> {
    match v {
        SqlValue::Null => Seq::empty(),
        SqlValue::Integer(n) => decimal_bytes(n as int),
        SqlValue::Text(t) => utf8_of(t@),
    }
}

/// The SQLite value of a column carries the same record field as the CSV text of that
/// column: for every record and column, the value read as CSV is the CSV cell (the SQL
/// texts, which CSV quotes, up to their quotes; NULL where CSV leaves the cell empty).
pub proof fn lemma_sqlite_values_agree_with_csv(v: SqlValue, r: LogRecord, i: int, ns: Option<&str>)
    requires
        0 <= i < FIELD_COUNT,
        column_value(v, r, i, ns),
    ensures
        i != 10 && i != 14 ==> csv_cell_of(v) == field_bytes(r, i, ns),
        i == 10 || i == 14 ==> field_bytes(r, i, ns) == (if v is Null {
            Seq::<u8>::empty()
        } else {
            quoted(csv_cell_of(v))
        }),
{
}

/// A number that tells the column names apart: their length and first letter.
spec fn name_code(s: Seq<char>) -> int {
    s.len() * 200 + (s[0] as int)
}

/// Each named column binds the record field of that name: for every record, column and
/// value bound to it, the column's name decides which field the value holds (the
/// performance figures only when the record has any, NULL otherwise).
pub proof fn lemma_sqlite_columns_by_name(v: SqlValue, r: LogRecord, i: int, ns: Option<&str>)
    requires
        0 <= i < FIELD_COUNT,
        column_value(v, r, i, ns),
    ensures
        field_label(i) == "ts"@ ==> is_text(v, r.ts@),
        field_label(i) == "ep"@ ==> is_integer(v, r.ep as int),
        field_label(i) == "sess_id"@ ==> is_text(v, r.sess_id@),
        field_label(i) == "thrd_id"@ ==> is_text(v, r.thrd_id@),
        field_label(i) == "username"@ ==> is_text(v, r.username@),
        field_label(i) == "trx_id"@ ==> is_text(v, r.trxid@),
        field_label(i) == "statement"@ ==> is_text(v, r.statement@),
        field_label(i) == "appname"@ ==> is_text(v, r.appname@),
        field_label(i) == "client_ip"@ ==> (v matches SqlValue::Text(t) && utf8_of(t@) == stripped_ip(
            utf8_of(r.client_ip@),
        )),
        field_label(i) == "tag"@ ==> is_text_or_null(v, match r.tag {
            Some(t) => Some(t@),
            None => None,
        }),
        field_label(i) == "sql"@ ==> is_text(v, r.sql@),
        field_label(i) == "exec_time_ms"@ ==> (if r.has_metrics() {
            v == SqlValue::Integer(r.exec_time_ms)
        } else {
            v is Null
        }),
        field_label(i) == "row_count"@ ==> (if r.has_metrics() {
            v == SqlValue::Integer(r.rowcount as i64)
        } else {
            v is Null
        }),
        field_label(i) == "exec_id"@ ==> (if r.has_metrics() {
            v == SqlValue::Integer(r.exec_id)
        } else {
            v is Null
        }),
        field_label(i) == "normalized_sql"@ ==> is_text_or_null(v, match ns {
            Some(s) => Some(s@),
            None => None,
        }),
{
    reveal_strlit("ts");
    reveal_strlit("ep");
    reveal_strlit("sess_id");
    reveal_strlit("thrd_id");
    reveal_strlit("username");
    reveal_strlit("trx_id");
    reveal_strlit("statement");
    reveal_strlit("appname");
    reveal_strlit("client_ip");
    reveal_strlit("tag");
    reveal_strlit("sql");
    reveal_strlit("exec_time_ms");
    reveal_strlit("row_count");
    reveal_strlit("exec_id");
    reveal_strlit("normalized_sql");
    assert(name_code("ts"@) == 516);
    assert(name_code("ep"@) == 501);
    assert(name_code("sess_id"@) == 1515);
    assert(name_code("thrd_id"@) == 1516);
    assert(name_code("username"@) == 1717);
    assert(name_code("trx_id"@) == 1316);
    assert(name_code("statement"@) == 1915);
    assert(name_code("appname"@) == 1497);
    assert(name_code("client_ip"@) == 1899);
    assert(name_code("tag"@) == 716);
    assert(name_code("sql"@) == 715);
    assert(name_code("exec_time_ms"@) == 2501);
    assert(name_code("row_count"@) == 1914);
    assert(name_code("exec_id"@) == 1501);
    assert(name_code("normalized_sql"@) == 2910);
    if i == 0 {
    } else if i == 1 {
    } else if i == 2 {
    } else if i == 3 {
    } else if i == 4 {
    } else if i == 5 {
    } else if i == 6 {
    } else if i == 7 {
    } else if i == 8 {
    } else if i == 9 {
    } else if i == 10 {
    } else if i == 11 {
    } else if i == 12 {
    } else if i == 13 {
    } else {
    }
}

} // verus!
