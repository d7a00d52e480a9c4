//! The fixed columns of an exported record: their names, order and SQLite types.
use vstd::prelude::*;

verus! {

/// How many columns an exported record has.
pub const FIELD_COUNT: usize = 15;

/// The name of column `i` (for `i` below `FIELD_COUNT`).
pub open spec fn field_label(i: int) -> Seq<char> {
    if i == 0 { "ts"@ }
    else if i == 1 { "ep"@ }
    else if i == 2 { "sess_id"@ }
    else if i == 3 { "thrd_id"@ }
    else if i == 4 { "username"@ }
    else if i == 5 { "trx_id"@ }
    else if i == 6 { "statement"@ }
    else if i == 7 { "appname"@ }
    else if i == 8 { "client_ip"@ }
    else if i == 9 { "tag"@ }
    else if i == 10 { "sql"@ }
    else if i == 11 { "exec_time_ms"@ }
    else if i == 12 { "row_count"@ }
    else if i == 13 { "exec_id"@ }
    else { "normalized_sql"@ }
}

/// The SQLite column type of column `i`.
pub open spec fn column_type_label(i: int) -> Seq<char> {
    if i == 0 || i == 2 || i == 3 || i == 4 || i == 5 || i == 10 { "TEXT NOT NULL"@ }
    else if i == 1 { "INTEGER NOT NULL"@ }
    else if i == 11 || i == 12 || i == 13 { "INTEGER"@ }
    else { "TEXT"@ }
}

/// True when every index names a column.
pub open spec fn valid_indices(idx: Seq<usize>) -> bool {
    forall|k: int| 0 <= k < idx.len() ==> #[trigger] idx[k] < FIELD_COUNT
}

/// The name of column `i`.
pub fn field_name(i: usize) -> (s: &'static str)
    requires
        i < FIELD_COUNT,
    ensures
        s@ == field_label(i as int),
{
    match i {
        0 => "ts",
        1 => "ep",
        2 => "sess_id",
        3 => "thrd_id",
        4 => "username",
        5 => "trx_id",
        6 => "statement",
        7 => "appname",
        8 => "client_ip",
        9 => "tag",
        10 => "sql",
        11 => "exec_time_ms",
        12 => "row_count",
        13 => "exec_id",
        _ => "normalized_sql",
    }
}

/// The SQLite column type of column `i`.
pub fn column_type(i: usize) -> (s: &'static str)
    requires
        i < FIELD_COUNT,
    ensures
        s@ == column_type_label(i as int),
{
    match i {
        0 | 2 | 3 | 4 | 5 | 10 => "TEXT NOT NULL",
        1 => "INTEGER NOT NULL",
        11 | 12 | 13 => "INTEGER",
        _ => "TEXT",
    }
}

/// All column indices in their natural order.
pub fn all_field_indices() -> (v: Vec<usize>)
    ensures
        v.len() == FIELD_COUNT,
        forall|k: int| 0 <= k < FIELD_COUNT ==> #[trigger] v@[k] == k,
{
    let mut v: Vec<usize> = Vec::new();
    let mut i: usize = 0;
    while i < FIELD_COUNT
        invariant
            i <= FIELD_COUNT,
            v.len() == i,
            forall|k: int| 0 <= k < i ==> #[trigger] v@[k] == k,
        decreases FIELD_COUNT - i,
    {
        v.push(i);
        i = i + 1;
    }
    v
}

/// The names of the given columns, in the given order.
pub fn projected_field_names(ordered_indices: &[usize]) -> (names: Vec<&'static str>)
    requires
        valid_indices(ordered_indices@),
    ensures
        names.len() == ordered_indices.len(),
        forall|k: int|
            0 <= k < names.len() ==> #[trigger] names@[k]@ == field_label(ordered_indices@[k] as int),
{
    let mut names: Vec<&'static str> = Vec::new();
    let n = ordered_indices.len();
    let mut k: usize = 0;
    while k < n
        invariant
            n == ordered_indices.len(),
            valid_indices(ordered_indices@),
            k <= n,
            names.len() == k,
            forall|j: int|
                0 <= j < k ==> #[trigger] names@[j]@ == field_label(ordered_indices@[j] as int),
        decreases n - k,
    {
        let idx = ordered_indices[k];
        assert(idx == ordered_indices@[k as int]);
        names.push(field_name(idx));
        k = k + 1;
    }
    names
}

} // verus!
