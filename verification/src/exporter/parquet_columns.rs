//! The column buffers of the Parquet exporter: their types, and how a record fills them.
use crate::exporter::csv_row::{record_writable, utf8_of, LogRecord};
use crate::exporter::fields::{valid_indices, FIELD_COUNT};
use crate::exporter::sql_values::{column_value, SqlValue};
use crate::exporter::util::{strip_ip_prefix, stripped_ip};
use vstd::prelude::*;
use vstd::string::StringSliceAdditionalSpecFns;

verus! {

/// The Arrow type of a column.
#[derive(Clone, Copy, Debug, PartialEq, Eq)]
pub enum ColumnKind {
    Utf8,
    Int32,
    Int64,
}

/// The type of column `i`: the endpoint is a 32-bit integer, the performance figures
/// 64-bit integers, everything else text.
pub open spec fn kind_of(i: int) -> ColumnKind {
    if i == 1 {
        ColumnKind::Int32
    } else if 11 <= i <= 13 {
        ColumnKind::Int64
    } else {
        ColumnKind::Utf8
    }
}

/// The type of column `i`.
pub fn column_kind(i: usize) -> (k: ColumnKind)
    ensures
        k == kind_of(i as int),
{
    if i == 1 {
        ColumnKind::Int32
    } else if 11 <= i && i <= 13 {
        ColumnKind::Int64
    } else {
        ColumnKind::Utf8
    }
}

/// Whether column `i` may hold nulls: the tag, the performance figures and the
/// normalized SQL.
pub fn column_nullable(i: usize) -> (b: bool)
    ensures
        b == (i == 9 || (11 <= i && i <= 14)),
{
    i == 9 || (11 <= i && i <= 14)
}

/// The columns written: the selected ones, without the normalized SQL when not
/// normalizing, in order.
pub open spec fn active_of(idx: Seq<usize>, normalize: bool) -> Seq<usize> {
    idx.filter(|i: usize| i != 14 || normalize)
}

/// The columns written; see [`active_of`].
pub fn active_indices(ordered_indices: &[usize], normalize: bool) -> (v: Vec<usize>)
    ensures
        v@ == active_of(ordered_indices@, normalize),
{
    let mut v: Vec<usize> = Vec::new();
    let n = ordered_indices.len();
    let mut k: usize = 0;
    while k < n
        invariant
            n == ordered_indices@.len(),
            k <= n,
            v@ == active_of(ordered_indices@.take(k as int), normalize),
        decreases n - k,
    {
        let i = ordered_indices[k];
        proof {
            assert(ordered_indices@.take(k + 1).drop_last() =~= ordered_indices@.take(k as int));
            assert(ordered_indices@.take(k + 1).last() == i);
            reveal(Seq::filter);
        }
        if i != 14 || normalize {
            v.push(i);
        }
        k = k + 1;
    }
    proof {
        assert(ordered_indices@.take(n as int) =~= ordered_indices@);
    }
    v
}

/// The values of one column so far.
#[derive(Debug)]
pub enum ColumnBuffer {
    Utf8(Vec<Option<String>>),
    Int32(Vec<Option<i32>>),
    Int64(Vec<Option<i64>>),
}

impl ColumnBuffer {
    /// The type of the buffer.
    pub open spec fn kind(&self) -> ColumnKind {
        match self {
            ColumnBuffer::Utf8(_) => ColumnKind::Utf8,
            ColumnBuffer::Int32(_) => ColumnKind::Int32,
            ColumnBuffer::Int64(_) => ColumnKind::Int64,
        }
    }

    /// The number of values in the buffer.
    pub open spec fn len(&self) -> nat {
        match self {
            ColumnBuffer::Utf8(v) => v.len() as nat,
            ColumnBuffer::Int32(v) => v.len() as nat,
            ColumnBuffer::Int64(v) => v.len() as nat,
        }
    }

    /// An empty buffer of the type of column `field_index`.
    pub fn with_capacity(field_index: usize, capacity: usize) -> (b: Self)
        ensures
            b.kind() == kind_of(field_index as int),
            b.len() == 0,
    {
        match field_index {
            1 => ColumnBuffer::Int32(Vec::with_capacity(capacity)),
            11 | 12 | 13 => ColumnBuffer::Int64(Vec::with_capacity(capacity)),
            _ => ColumnBuffer::Utf8(Vec::with_capacity(capacity)),
        }
    }
}

/// The text a column holds, when it holds one.
pub open spec fn text_cell(r: LogRecord, i: int, ns: Option<&str>) -> Option<Seq<char>> {
    if i == 0 {
        Some(r.ts@)
    } else if i == 2 {
        Some(r.sess_id@)
    } else if i == 3 {
        Some(r.thrd_id@)
    } else if i == 4 {
        Some(r.username@)
    } else if i == 5 {
        Some(r.trxid@)
    } else if i == 6 {
        Some(r.statement@)
    } else if i == 7 {
        Some(r.appname@)
    } else if i == 9 {
        match r.tag {
            Some(t) => Some(t@),
            None => None,
        }
    } else if i == 10 {
        Some(r.sql@)
    } else {
        match ns {
            Some(s) => Some(s@),
            None => None,
        }
    }
}

/// The integer a 64-bit column holds: the performance figures when the record has any.
pub open spec fn int64_cell(r: LogRecord, i: int) -> Option<i64> {
    if !r.has_metrics() {
        None
    } else if i == 11 {
        Some(r.exec_time_ms)
    } else if i == 12 {
        Some(r.rowcount as i64)
    } else {
        Some(r.exec_id)
    }
}

/// `v` is the cell of column `i` for the record (the client address without its
/// IPv4-mapped prefix).
pub open spec fn cell_matches(b: ColumnBuffer, v_len: int, r: LogRecord, i: int, ns: Option<&str>) -> bool {
    match b {
        ColumnBuffer::Int32(v) => v@[v_len] == Some(r.ep as i32),
        ColumnBuffer::Int64(v) => v@[v_len] == int64_cell(r, i),
        ColumnBuffer::Utf8(v) => if i == 8 {
            v@[v_len] matches Some(t) && utf8_of(t@) == stripped_ip(utf8_of(r.client_ip@))
        } else {
            match text_cell(r, i, ns) {
                Some(s) => v@[v_len] matches Some(t) && t@ == s,
                None => v@[v_len] is None,
            }
        },
    }
}

/// `after` is `before` with one more cell, the record's value of column `i`.
pub open spec fn pushed_cell(before: ColumnBuffer, after: ColumnBuffer, r: LogRecord, i: int, ns: Option<&str>) -> bool {
    &&& after.kind() == before.kind()
    &&& after.len() == before.len() + 1
    &&& match (before, after) {
        (ColumnBuffer::Utf8(a), ColumnBuffer::Utf8(b)) => b@.take(a@.len() as int) == a@,
        (ColumnBuffer::Int32(a), ColumnBuffer::Int32(b)) => b@.take(a@.len() as int) == a@,
        (ColumnBuffer::Int64(a), ColumnBuffer::Int64(b)) => b@.take(a@.len() as int) == a@,
        _ => false,
    }
    &&& cell_matches(after, before.len() as int, r, i, ns)
}

fn push_text(v: &mut Vec<Option<String>>, s: &str)
    ensures
        final(v)@.len() == old(v)@.len() + 1,
        final(v)@.take(old(v)@.len() as int) == old(v)@,
        final(v)@[old(v)@.len() as int] matches Some(t) && t@ == s@,
{
    v.push(Some(s.to_owned()));
    assert(v@.take(old(v)@.len() as int) =~= old(v)@);
}

/// Appends the record's value of column `i` to its buffer.
fn push_cell(b: &mut ColumnBuffer, r: &LogRecord, i: usize, ns: Option<&str>, has_metrics: bool)
    requires
        i < FIELD_COUNT,
        old(b).kind() == kind_of(i as int),
        i == 8 ==> record_writable(*r),
        has_metrics == r.has_metrics(),
    ensures
        pushed_cell(*old(b), *final(b), *r, i as int, ns),
{
    match b {
        ColumnBuffer::Int32(v) => {
            v.push(Some(r.ep as i32));
            assert(v@.take(v@.len() - 1) =~= old(b)->Int32_0@);
        },
        ColumnBuffer::Int64(v) => {
            let cell: Option<i64> = if !has_metrics {
                None
            } else if i == 11 {
                Some(r.exec_time_ms)
            } else if i == 12 {
                Some(r.rowcount as i64)
            } else {
                Some(r.exec_id)
            };
            v.push(cell);
            assert(v@.take(v@.len() - 1) =~= old(b)->Int64_0@);
        },
        ColumnBuffer::Utf8(v) => {
            if i == 8 {
                let ip = strip_ip_prefix(r.client_ip.as_str());
                push_text(v, ip);
            } else if i == 0 {
                push_text(v, r.ts.as_str());
            } else if i == 2 {
                push_text(v, r.sess_id.as_str());
            } else if i == 3 {
                push_text(v, r.thrd_id.as_str());
            } else if i == 4 {
                push_text(v, r.username.as_str());
            } else if i == 5 {
                push_text(v, r.trxid.as_str());
            } else if i == 6 {
                push_text(v, r.statement.as_str());
            } else if i == 7 {
                push_text(v, r.appname.as_str());
            } else if i == 10 {
                push_text(v, r.sql.as_str());
            } else if i == 9 {
                match &r.tag {
                    Some(t) => push_text(v, t.as_str()),
                    None => {
                        v.push(None);
                        assert(v@.take(v@.len() - 1) =~= old(b)->Utf8_0@);
                    },
                }
            } else {
                match ns {
                    Some(s) => push_text(v, s),
                    None => {
                        v.push(None);
                        assert(v@.take(v@.len() - 1) =~= old(b)->Utf8_0@);
                    },
                }
            }
        },
    }
}

/// The columns being buffered for the next row group, and how much they hold.
pub struct ParquetBuffer {
    pub ordered_indices: Vec<usize>,
    pub columns: Vec<ColumnBuffer>,
    pub buffered_rows: usize,
    pub buffered_bytes: usize,
}

/// The largest estimated size of a buffered row group (64 MiB).
pub const MAX_BUFFERED_BYTES: usize = 67108864;

/// The estimated size of a record in a buffer: its text lengths in bytes plus 32.
pub open spec fn record_size(r: LogRecord, ns: Option<&str>) -> int {
    utf8_of(r.ts@).len() + utf8_of(r.sess_id@).len() + utf8_of(r.thrd_id@).len() + utf8_of(r.username@).len()
        + utf8_of(r.trxid@).len() + utf8_of(r.statement@).len() + utf8_of(r.appname@).len()
        + utf8_of(r.client_ip@).len() + (match r.tag {
        Some(t) => utf8_of(t@).len() as int,
        None => 0,
    }) + utf8_of(r.sql@).len() + (match ns {
        Some(s) => utf8_of(s@).len() as int,
        None => 0,
    }) + 32
}

impl ParquetBuffer {
    /// One buffer per written column, of its type, all as long as the buffered rows.
    pub open spec fn wf(&self) -> bool {
        &&& self.columns.len() == self.ordered_indices.len()
        &&& valid_indices(self.ordered_indices@)
        &&& forall|k: int|
            0 <= k < self.columns.len() ==> (#[trigger] self.columns@[k]).kind() == kind_of(
                self.ordered_indices@[k] as int,
            ) && self.columns@[k].len() == self.buffered_rows
    }

    /// Empty buffers for the given columns.
    pub fn new(ordered_indices: Vec<usize>, capacity: usize) -> (b: Self)
        requires
            valid_indices(ordered_indices@),
        ensures
            b.wf(),
            b.ordered_indices@ == ordered_indices@,
            b.buffered_rows == 0,
            b.buffered_bytes == 0,
    {
        let columns = empty_columns(&ordered_indices, capacity);
        ParquetBuffer { ordered_indices, columns, buffered_rows: 0, buffered_bytes: 0 }
    }

    /// Appends a record: every column receives the record's value of its field, and the
    /// row and size counters grow by one row and the record's estimated size.
    pub fn append_record(&mut self, r: &LogRecord, normalized: Option<&str>)
        requires
            old(self).wf(),
            old(self).ordered_indices@.contains(8usize) ==> record_writable(*r),
            old(self).buffered_rows < usize::MAX,
            old(self).buffered_bytes + record_size(*r, normalized) <= usize::MAX,
        ensures
            final(self).wf(),
            final(self).ordered_indices == old(self).ordered_indices,
            final(self).buffered_rows == old(self).buffered_rows + 1,
            final(self).buffered_bytes == old(self).buffered_bytes + record_size(*r, normalized),
            forall|k: int|
                0 <= k < old(self).columns.len() ==> pushed_cell(
                    #[trigger] old(self).columns@[k],
                    final(self).columns@[k],
                    *r,
                    old(self).ordered_indices@[k] as int,
                    normalized,
                ),
    {
        let has_metrics = r.exec_id != 0 || r.exec_time_positive || r.rowcount != 0;
        let n = self.columns.len();
        let ghost old_cols = self.columns@;
        let mut k: usize = 0;
        while k < n
            invariant
                n == self.columns.len(),
                n == self.ordered_indices.len(),
                valid_indices(self.ordered_indices@),
                self.ordered_indices == old(self).ordered_indices,
                self.buffered_rows == old(self).buffered_rows,
                self.buffered_bytes == old(self).buffered_bytes,
                old_cols == old(self).columns@,
                self.ordered_indices@.contains(8usize) ==> record_writable(*r),
                has_metrics == r.has_metrics(),
                k <= n,
                forall|j: int| 0 <= j < n ==> (#[trigger] old_cols[j]).kind() == kind_of(self.ordered_indices@[j] as int)
                    && old_cols[j].len() == self.buffered_rows,
                forall|j: int| 0 <= j < k ==> pushed_cell(
                    #[trigger] old_cols[j],
                    self.columns@[j],
                    *r,
                    self.ordered_indices@[j] as int,
                    normalized,
                ),
                forall|j: int| k <= j < n ==> #[trigger] self.columns@[j] == old_cols[j],
            decreases n - k,
        {
            let i = self.ordered_indices[k];
            assert(i == self.ordered_indices@[k as int]);
            proof {
                if i == 8 {
                    assert(self.ordered_indices@.contains(8usize));
                }
            }
            let mut col = ColumnBuffer::Int32(Vec::new());
            self.columns.set_and_swap(k, &mut col);
            assert(col == old_cols[k as int]);
            push_cell(&mut col, r, i, normalized, has_metrics);
            self.columns.set_and_swap(k, &mut col);
            k = k + 1;
        }
        self.buffered_rows = self.buffered_rows + 1;
        proof {
            assert forall|j: int| 0 <= j < n implies (#[trigger] self.columns@[j]).kind() == kind_of(
                self.ordered_indices@[j] as int,
            ) && self.columns@[j].len() == self.buffered_rows by {
                assert(pushed_cell(old_cols[j], self.columns@[j], *r, self.ordered_indices@[j] as int, normalized));
            }
        }
        let size = record_bytes(r, normalized);
        self.buffered_bytes = self.buffered_bytes + size;
    }

    /// Whether the buffered rows fill a row group: enough rows, or enough bytes.
    pub fn needs_flush(&self, row_group_rows: usize) -> (b: bool)
        ensures
            b == (self.buffered_rows >= row_group_rows || self.buffered_bytes >= MAX_BUFFERED_BYTES),
    {
        self.buffered_rows >= row_group_rows || self.buffered_bytes >= MAX_BUFFERED_BYTES
    }

    /// Hands out the buffered columns and starts again with empty ones of the same types.
    pub fn take_columns(&mut self, capacity: usize) -> (cols: Vec<ColumnBuffer>)
        requires
            old(self).wf(),
        ensures
            cols@ == old(self).columns@,
            final(self).wf(),
            final(self).ordered_indices == old(self).ordered_indices,
            final(self).buffered_rows == 0,
            final(self).buffered_bytes == 0,
    {
        let mut cols = empty_columns(&self.ordered_indices, capacity);
        std::mem::swap(&mut cols, &mut self.columns);
        self.buffered_rows = 0;
        self.buffered_bytes = 0;
        cols
    }
}

/// Empty buffers of the types of the given columns.
fn empty_columns(ordered_indices: &Vec<usize>, capacity: usize) -> (cols: Vec<ColumnBuffer>)
    ensures
        cols.len() == ordered_indices.len(),
        forall|k: int|
            0 <= k < cols.len() ==> (#[trigger] cols@[k]).kind() == kind_of(ordered_indices@[k] as int)
                && cols@[k].len() == 0,
{
    let mut cols: Vec<ColumnBuffer> = Vec::new();
    let n = ordered_indices.len();
    let mut k: usize = 0;
    while k < n
        invariant
            n == ordered_indices.len(),
            k <= n,
            cols.len() == k,
            forall|j: int|
                0 <= j < k ==> (#[trigger] cols@[j]).kind() == kind_of(ordered_indices@[j] as int)
                    && cols@[j].len() == 0,
        decreases n - k,
    {
        cols.push(ColumnBuffer::with_capacity(ordered_indices[k], capacity));
        k = k + 1;
    }
    cols
}

/// The estimated size of a record; see [`record_size`].
fn record_bytes(r: &LogRecord, ns: Option<&str>) -> (n: usize)
    requires
        record_size(*r, ns) <= usize::MAX,
    ensures
        n == record_size(*r, ns),
{
    let tag_len: usize = match &r.tag {
        Some(t) => t.as_str().len(),
        None => 0,
    };
    let ns_len: usize = match ns {
        Some(s) => s.len(),
        None => 0,
    };
    r.ts.as_str().len() + r.sess_id.as_str().len() + r.thrd_id.as_str().len() + r.username.as_str().len()
        + r.trxid.as_str().len() + r.statement.as_str().len() + r.appname.as_str().len()
        + r.client_ip.as_str().len() + tag_len + r.sql.as_str().len() + ns_len + 32
}

/// A Parquet column holds the same record field as the SQLite column of the same index:
/// for every record and column, a text column holds the bound text (nothing where
/// SQLite binds NULL), a 64-bit column the bound integer, and the endpoint column the
/// bound endpoint.
pub proof fn lemma_parquet_cells_agree_with_sqlite(v: SqlValue, r: LogRecord, i: int, ns: Option<&str>)
    requires
        0 <= i < FIELD_COUNT,
        column_value(v, r, i, ns),
    ensures
        kind_of(i) == ColumnKind::Utf8 && i != 8 ==> text_cell(r, i, ns) == (match v {
            SqlValue::Text(t) => Some(t@),
            _ => None::<Seq<char>>,
        }),
        kind_of(i) == ColumnKind::Int64 ==> int64_cell(r, i) == (match v {
            SqlValue::Integer(n) => Some(n),
            _ => None::<i64>,
        }),
        kind_of(i) == ColumnKind::Int32 ==> v == SqlValue::Integer((r.ep as i32) as i64),
{
}

} // verus!
