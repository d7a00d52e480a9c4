//! SQL statements for the SQLite export table: CREATE TABLE and (multi-row) INSERT.
use crate::exporter::fields::{
    column_type, column_type_label, field_label, field_name, valid_indices, FIELD_COUNT,
};
use vstd::prelude::*;

verus! {

/// Items joined with `", "` between neighbours.
pub open spec fn comma_joined(items: Seq<Seq<char>>) -> Seq<char>
    decreases items.len(),
{
    if items.len() == 0 {
        Seq::empty()
    } else if items.len() == 1 {
        items[0]
    } else {
        comma_joined(items.drop_last()) + ", "@ + items.last()
    }
}

/// `n` copies of one text.
pub open spec fn copies(n: nat, item: Seq<char>) -> Seq<Seq<char>> {
    Seq::new(n, |_k: int| item)
}

/// One row of `n` placeholders: `(?, ?, ...)`.
pub open spec fn placeholder_row(n: nat) -> Seq<char> {
    "("@ + comma_joined(copies(n, "?"@)) + ")"@
}

/// `rows` placeholder rows of `cols` columns each, joined with `", "`.
pub open spec fn value_rows(cols: nat, rows: nat) -> Seq<char> {
    comma_joined(copies(rows, placeholder_row(cols)))
}

/// The names of the given columns.
pub open spec fn column_names(idx: Seq<usize>) -> Seq<char> {
    comma_joined(idx.map_values(|i: usize| field_label(i as int)))
}

/// The definition of one column in CREATE TABLE: its name, a space and its type.
pub open spec fn column_def(i: int) -> Seq<char> {
    field_label(i) + " "@ + column_type_label(i)
}

/// The column definitions of the given columns.
pub open spec fn column_defs(idx: Seq<usize>) -> Seq<char> {
    comma_joined(idx.map_values(|i: usize| column_def(i as int)))
}

/// `INSERT INTO "table"`.
pub open spec fn insert_head(table: Seq<char>) -> Seq<char> {
    "INSERT INTO \""@ + table + "\""@
}

/// The single-row INSERT for the given columns: every column of the record lists no
/// column names; a projection names its columns.
pub open spec fn insert_sql(table: Seq<char>, idx: Seq<usize>) -> Seq<char> {
    if idx.len() == FIELD_COUNT {
        insert_head(table) + " VALUES "@ + placeholder_row(idx.len())
    } else {
        insert_head(table) + " ("@ + column_names(idx) + ") VALUES "@ + placeholder_row(idx.len())
    }
}

/// The INSERT of `rows` rows for the given columns.
pub open spec fn multi_row_insert_sql(table: Seq<char>, idx: Seq<usize>, rows: nat) -> Seq<char> {
    if idx.len() == FIELD_COUNT {
        insert_head(table) + " VALUES "@ + value_rows(idx.len(), rows)
    } else {
        insert_head(table) + " ("@ + column_names(idx) + ") VALUES "@ + value_rows(idx.len(), rows)
    }
}

/// The CREATE TABLE statement for the given columns.
pub open spec fn create_sql(table: Seq<char>, idx: Seq<usize>) -> Seq<char> {
    "CREATE TABLE IF NOT EXISTS \""@ + table + "\" ("@ + column_defs(idx) + ")"@
}

/// Appending one more item to a joined list adds a separator and the item.
pub proof fn lemma_joined_push(xs: Seq<Seq<char>>, y: Seq<char>)
    ensures
        comma_joined(xs.push(y)) == (if xs.len() == 0 {
            y
        } else {
            comma_joined(xs) + ", "@ + y
        }),
{
    assert(xs.push(y).drop_last() =~= xs);
}

/// Appends `n` placeholders joined with `", "`.
fn append_placeholders(s: &mut String, n: usize)
    ensures
        final(s)@ == old(s)@ + comma_joined(copies(n as nat, "?"@)),
{
    let ghost start = s@;
    let mut k: usize = 0;
    while k < n
        invariant
            k <= n,
            s@ == start + comma_joined(copies(k as nat, "?"@)),
        decreases n - k,
    {
        proof {
            lemma_joined_push(copies(k as nat, "?"@), "?"@);
            assert(copies(k as nat, "?"@).push("?"@) =~= copies((k + 1) as nat, "?"@));
        }
        if k > 0 {
            s.append(", ");
        }
        s.append("?");
        proof {
            assert(s@ =~= start + comma_joined(copies((k + 1) as nat, "?"@)));
        }
        k = k + 1;
    }
}

/// The text of one placeholder row of `n` columns.
fn placeholder_row_text(n: usize) -> (r: String)
    ensures
        r@ == placeholder_row(n as nat),
{
    let mut r = "(".to_owned();
    append_placeholders(&mut r, n);
    r.append(")");
    r
}

/// Appends the names of the given columns joined with `", "`.
fn append_column_names(s: &mut String, ordered_indices: &[usize])
    requires
        valid_indices(ordered_indices@),
    ensures
        final(s)@ == old(s)@ + column_names(ordered_indices@),
{
    let ghost start = s@;
    let ghost labels = ordered_indices@.map_values(|i: usize| field_label(i as int));
    let n = ordered_indices.len();
    let mut k: usize = 0;
    while k < n
        invariant
            n == ordered_indices.len(),
            valid_indices(ordered_indices@),
            labels == ordered_indices@.map_values(|i: usize| field_label(i as int)),
            k <= n,
            s@ == start + comma_joined(labels.take(k as int)),
        decreases n - k,
    {
        let idx = ordered_indices[k];
        assert(idx == ordered_indices@[k as int]);
        proof {
            lemma_joined_push(labels.take(k as int), labels[k as int]);
            assert(labels.take(k as int).push(labels[k as int]) =~= labels.take(k + 1));
        }
        if k > 0 {
            s.append(", ");
        }
        s.append(field_name(idx));
        proof {
            assert(s@ =~= start + comma_joined(labels.take(k + 1)));
        }
        k = k + 1;
    }
    proof {
        assert(labels.take(n as int) =~= labels);
    }
}

/// Appends `rows` copies of `row`, joined with `", "`.
fn append_rows(s: &mut String, row: &str, rows: usize)
    ensures
        final(s)@ == old(s)@ + comma_joined(copies(rows as nat, row@)),
{
    let ghost start = s@;
    let mut k: usize = 0;
    while k < rows
        invariant
            k <= rows,
            s@ == start + comma_joined(copies(k as nat, row@)),
        decreases rows - k,
    {
        proof {
            lemma_joined_push(copies(k as nat, row@), row@);
            assert(copies(k as nat, row@).push(row@) =~= copies((k + 1) as nat, row@));
        }
        if k > 0 {
            s.append(", ");
        }
        s.append(row);
        proof {
            assert(s@ =~= start + comma_joined(copies((k + 1) as nat, row@)));
        }
        k = k + 1;
    }
}

/// The single-row INSERT statement for the given columns of `table_name`.
pub fn build_insert_sql(table_name: &str, ordered_indices: &[usize]) -> (sql: String)
    requires
        ordered_indices.len() != FIELD_COUNT ==> valid_indices(ordered_indices@),
    ensures
        sql@ == insert_sql(table_name@, ordered_indices@),
{
    let mut sql = "INSERT INTO \"".to_owned();
    sql.append(table_name);
    sql.append("\"");
    if ordered_indices.len() == FIELD_COUNT {
        sql.append(" VALUES ");
    } else {
        sql.append(" (");
        append_column_names(&mut sql, ordered_indices);
        sql.append(") VALUES ");
    }
    let row = placeholder_row_text(ordered_indices.len());
    sql.append(row.as_str());
    sql
}

/// The INSERT statement of `row_count` rows for the given columns of `table_name`.
pub fn build_multi_row_insert_sql(table_name: &str, ordered_indices: &[usize], row_count: usize) -> (sql: String)
    requires
        ordered_indices.len() != FIELD_COUNT ==> valid_indices(ordered_indices@),
        row_count > 0,
        ordered_indices.len() > 0,
    ensures
        sql@ == multi_row_insert_sql(table_name@, ordered_indices@, row_count as nat),
{
    let one_row = placeholder_row_text(ordered_indices.len());
    let mut sql = "INSERT INTO \"".to_owned();
    sql.append(table_name);
    sql.append("\"");
    if ordered_indices.len() == FIELD_COUNT {
        sql.append(" VALUES ");
    } else {
        sql.append(" (");
        append_column_names(&mut sql, ordered_indices);
        sql.append(") VALUES ");
    }
    append_rows(&mut sql, one_row.as_str(), row_count);
    sql
}

/// The CREATE TABLE statement for the given columns of `table_name`.
pub fn build_create_sql(table_name: &str, ordered_indices: &[usize]) -> (sql: String)
    requires
        valid_indices(ordered_indices@),
    ensures
        sql@ == create_sql(table_name@, ordered_indices@),
{
    let mut sql = "CREATE TABLE IF NOT EXISTS \"".to_owned();
    sql.append(table_name);
    sql.append("\" (");
    let ghost start = sql@;
    let ghost defs = ordered_indices@.map_values(|i: usize| column_def(i as int));
    let n = ordered_indices.len();
    let mut k: usize = 0;
    while k < n
        invariant
            n == ordered_indices.len(),
            valid_indices(ordered_indices@),
            defs == ordered_indices@.map_values(|i: usize| column_def(i as int)),
            k <= n,
            sql@ == start + comma_joined(defs.take(k as int)),
        decreases n - k,
    {
        let idx = ordered_indices[k];
        assert(idx == ordered_indices@[k as int]);
        proof {
            lemma_joined_push(defs.take(k as int), defs[k as int]);
            assert(defs.take(k as int).push(defs[k as int]) =~= defs.take(k + 1));
        }
        if k > 0 {
            sql.append(", ");
        }
        sql.append(field_name(idx));
        sql.append(" ");
        sql.append(column_type(idx));
        proof {
            assert(sql@ =~= start + comma_joined(defs.take(k + 1)));
        }
        k = k + 1;
    }
    proof {
        assert(defs.take(n as int) =~= defs);
    }
    sql.append(")");
    sql
}

/// A batch of one row is the single-row INSERT: for every table and every non-empty
/// column list, the one-row batch statement equals the single-row statement.
pub proof fn lemma_single_row_batch_is_insert(table: Seq<char>, idx: Seq<usize>)
    requires
        idx.len() > 0,
    ensures
        multi_row_insert_sql(table, idx, 1) == insert_sql(table, idx),
{
    assert(copies(1, placeholder_row(idx.len())).len() == 1);
    assert(value_rows(idx.len(), 1) == placeholder_row(idx.len()));
}

/// The number of `?` placeholders in a text.
pub open spec fn placeholder_count(s: Seq<char>) -> nat
    decreases s.len(),
{
    if s.len() == 0 {
        0
    } else {
        placeholder_count(s.drop_last()) + if s.last() == '?' { 1nat } else { 0nat }
    }
}

proof fn lemma_count_concat(a: Seq<char>, b: Seq<char>)
    ensures
        placeholder_count(a + b) == placeholder_count(a) + placeholder_count(b),
    decreases b.len(),
{
    if b.len() == 0 {
        assert(a + b =~= a);
    } else {
        lemma_count_concat(a, b.drop_last());
        assert((a + b).drop_last() =~= a + b.drop_last());
    }
}

proof fn lemma_literal_counts()
    ensures
        placeholder_count("?"@) == 1,
        placeholder_count(", "@) == 0,
        placeholder_count("("@) == 0,
        placeholder_count(")"@) == 0,
{
    reveal_strlit("?");
    reveal_strlit(", ");
    reveal_strlit("(");
    reveal_strlit(")");
    let e = Seq::<char>::empty();
    assert(placeholder_count(e) == 0);
    assert("?"@ =~= seq!['?']);
    assert(seq!['?'].drop_last() =~= e);
    assert(placeholder_count(seq!['?']) == placeholder_count(e) + 1);
    assert(", "@ =~= seq![',', ' ']);
    assert(seq![',', ' '].drop_last() =~= seq![',']);
    assert(seq![','].drop_last() =~= e);
    assert(placeholder_count(seq![',']) == 0);
    assert(placeholder_count(seq![',', ' ']) == 0);
    assert("("@ =~= seq!['(']);
    assert(seq!['('].drop_last() =~= e);
    assert(placeholder_count(seq!['(']) == 0);
    assert(")"@ =~= seq![')']);
    assert(seq![')'].drop_last() =~= e);
    assert(placeholder_count(seq![')']) == 0);
}

/// `n` copies of a text joined with `", "` hold `n` times its placeholders.
proof fn lemma_copies_count(n: nat, item: Seq<char>)
    ensures
        placeholder_count(comma_joined(copies(n, item))) == n * placeholder_count(item),
    decreases n,
{
    lemma_literal_counts();
    if n == 0 {
        assert(comma_joined(copies(0, item)) =~= Seq::<char>::empty());
    } else {
        lemma_copies_count((n - 1) as nat, item);
        lemma_joined_push(copies((n - 1) as nat, item), item);
        assert(copies((n - 1) as nat, item).push(item) =~= copies(n, item));
        if n > 1 {
            lemma_count_concat(comma_joined(copies((n - 1) as nat, item)), ", "@);
            lemma_count_concat(comma_joined(copies((n - 1) as nat, item)) + ", "@, item);
        }
        assert(n * placeholder_count(item) == (n - 1) * placeholder_count(item) + placeholder_count(item)) by (nonlinear_arith);
    }
}

/// Every statement binds as many values as it has placeholders: a row of `n` columns
/// holds `n` placeholders, and `rows` rows hold `cols * rows` of them.
pub proof fn lemma_placeholders_match_values(cols: nat, rows: nat)
    ensures
        placeholder_count(placeholder_row(cols)) == cols,
        placeholder_count(value_rows(cols, rows)) == cols * rows,
{
    lemma_literal_counts();
    lemma_copies_count(cols, "?"@);
    lemma_count_concat("("@, comma_joined(copies(cols, "?"@)));
    lemma_count_concat("("@ + comma_joined(copies(cols, "?"@)), ")"@);
    let x = comma_joined(copies(cols, "?"@));
    assert(placeholder_count(x) == cols * 1);
    assert(placeholder_count(x) == cols);
    assert(placeholder_count("("@ + x) == placeholder_count(x));
    assert(placeholder_count("("@ + x + ")"@) == placeholder_count(x));
    assert(placeholder_row(cols) == "("@ + x + ")"@);
    lemma_copies_count(rows, placeholder_row(cols));
    assert(rows * cols == cols * rows) by (nonlinear_arith);
}

} // verus!
