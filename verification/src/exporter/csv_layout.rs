//! The CSV layout of an exporter: its header and the line of each record.
use crate::exporter::csv_row::{
    byte_joined, full_row, lemma_byte_joined_push, record_writable, selected_row, utf8_of,
    visible, visible_fields, write_all_fields, write_selected_fields, LogRecord,
};
use crate::exporter::fields::{field_label, field_name, valid_indices, FIELD_COUNT};
use vstd::prelude::*;

verus! {

/// Which columns a CSV exporter writes, and how.
pub struct CsvLayout {
    /// Write the normalized SQL column.
    pub normalize: bool,
    /// Every column is selected, in natural order (the fast path).
    pub all_fields: bool,
    /// The selected columns, in output order.
    pub ordered_indices: Vec<usize>,
    /// Write the performance columns.
    pub include_performance_metrics: bool,
}

/// The names of the written columns among `idx`, in order, as bytes.
pub open spec fn header_names(idx: Seq<usize>, normalize: bool, include_pm: bool) -> Seq<Seq<u8>>
    decreases idx.len(),
{
    if idx.len() == 0 {
        Seq::empty()
    } else {
        let prev = header_names(idx.drop_last(), normalize, include_pm);
        if visible(idx.last() as int, normalize, include_pm) {
            prev.push(utf8_of(field_label(idx.last() as int)))
        } else {
            prev
        }
    }
}

/// The header line: the written column names separated by commas, then a line end.
pub open spec fn header_line(idx: Seq<usize>, normalize: bool, include_pm: bool) -> Seq<u8> {
    byte_joined(header_names(idx, normalize, include_pm)) + seq![10u8]
}

impl CsvLayout {
    /// The layout of a CSV file with every column.
    pub fn all_columns() -> (l: Self)
        ensures
            l.normalize,
            l.all_fields,
            l.include_performance_metrics,
            l.ordered_indices.len() == FIELD_COUNT,
            forall|k: int| 0 <= k < FIELD_COUNT ==> #[trigger] l.ordered_indices@[k] == k,
    {
        CsvLayout {
            normalize: true,
            all_fields: true,
            ordered_indices: crate::exporter::fields::all_field_indices(),
            include_performance_metrics: true,
        }
    }

    /// The row of a record under this layout (without the line end).
    pub open spec fn row(&self, r: LogRecord, ns: Option<&str>) -> Seq<u8> {
        if self.all_fields {
            full_row(r, ns, self.normalize, self.include_performance_metrics)
        } else {
            selected_row(r, ns, self.ordered_indices@, self.normalize, self.include_performance_metrics)
        }
    }

    /// The header line: the names of the written columns, separated by commas, ending
    /// the line. The normalized SQL column is left out when not normalizing, the
    /// performance columns when they are not wanted.
    pub fn build_header(&self) -> (header: Vec<u8>)
        requires
            valid_indices(self.ordered_indices@),
        ensures
            header@ == header_line(self.ordered_indices@, self.normalize, self.include_performance_metrics),
    {
        let ghost idx = self.ordered_indices@;
        let mut header: Vec<u8> = Vec::new();
        let mut first = true;
        let n = self.ordered_indices.len();
        let mut k: usize = 0;
        while k < n
            invariant
                n == self.ordered_indices.len(),
                idx == self.ordered_indices@,
                valid_indices(idx),
                k <= n,
                header@ == byte_joined(header_names(idx.take(k as int), self.normalize, self.include_performance_metrics)),
                first == (header_names(idx.take(k as int), self.normalize, self.include_performance_metrics).len() == 0),
            decreases n - k,
        {
            let i = self.ordered_indices[k];
            let ghost prev = header_names(idx.take(k as int), self.normalize, self.include_performance_metrics);
            proof {
                assert(idx.take(k + 1).drop_last() =~= idx.take(k as int));
                assert(idx.take(k + 1).last() == idx[k as int]);
                assert(i < FIELD_COUNT);
            }
            let skip = (i == 14 && !self.normalize) || (11 <= i && i <= 13 && !self.include_performance_metrics);
            if !skip {
                proof {
                    lemma_byte_joined_push(prev, utf8_of(field_label(i as int)));
                }
                if !first {
                    header.push(44u8);
                }
                first = false;
                let name = field_name(i);
                let bytes = name.as_bytes();
                let ghost before = header@;
                header.extend_from_slice(bytes);
                proof {
                    assert forall|j: int| 0 <= j < header@.len() implies #[trigger] header@[j] == (before + bytes@)[j] by {
                        if j >= before.len() {
                            assert(cloned::<u8>(bytes@[j - before.len()], header@[j]));
                        }
                    }
                    assert(header@ =~= before + bytes@);
                }
            }
            k = k + 1;
        }
        proof {
            assert(idx.take(n as int) =~= idx);
        }
        header.push(10u8);
        header
    }

    /// Fills `line_buf` with the CSV line of a record: its row under this layout and a
    /// line end. What was in the buffer before is dropped.
    pub fn format_record_line(&self, line_buf: &mut Vec<u8>, r: &LogRecord, normalized_sql: Option<&str>)
        requires
            self.all_fields || self.ordered_indices@.contains(8usize) ==> record_writable(*r),
        ensures
            final(line_buf)@ == self.row(*r, normalized_sql) + seq![10u8],
    {
        line_buf.clear();
        if self.all_fields {
            write_all_fields(line_buf, r, self.normalize, normalized_sql, self.include_performance_metrics);
        } else {
            write_selected_fields(
                line_buf,
                r,
                self.normalize,
                normalized_sql,
                self.ordered_indices.as_slice(),
                self.include_performance_metrics,
            );
        }
        line_buf.push(10u8);
    }
}

/// The header names the columns that every record row fills: for every record and
/// column list, the header has as many names as the row has column texts.
pub proof fn lemma_header_width_matches_rows(
    idx: Seq<usize>,
    r: LogRecord,
    ns: Option<&str>,
    normalize: bool,
    include_pm: bool,
)
    ensures
        header_names(idx, normalize, include_pm).len() == visible_fields(r, ns, idx, normalize, include_pm).len(),
    decreases idx.len(),
{
    if idx.len() > 0 {
        lemma_header_width_matches_rows(idx.drop_last(), r, ns, normalize, include_pm);
    }
}

/// Whether a newly opened CSV file gets a header: always when it was truncated, and in
/// append mode only when the file is empty (or its size could not be read).
pub fn header_needed(append_mode: bool, file_is_empty: bool) -> (b: bool)
    ensures
        b == (!append_mode || file_is_empty),
{
    !append_mode || file_is_empty
}

} // verus!
