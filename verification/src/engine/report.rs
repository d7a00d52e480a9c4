//! The texts of the end-of-run report and of the parse error log.
use crate::infrastructure::error::{kind_text, ErrorStats, ParseErrorRecord};
use crate::text::{decimal, decimal_text};
use vstd::prelude::*;

verus! {

/// Tenths of a percent that `part` is of `whole`, rounded to the nearest tenth with a
/// tie going to the even tenth (0 when `whole` is 0).
pub open spec fn permille_of(part: u64, whole: u64) -> int {
    if whole == 0 {
        0
    } else {
        let n = part * 1000;
        let q = n / (whole as int);
        let r = n % (whole as int);
        if 2 * r > whole || (2 * r == whole && q % 2 == 1) { q + 1 } else { q }
    }
}

/// Tenths of a percent that `part` is of `whole`; see [`permille_of`].
pub fn permille(part: u64, whole: u64) -> (p: u128)
    ensures
        p == permille_of(part, whole),
        p <= part * 1000 + 1,
{
    if whole == 0 {
        return 0;
    }
    let n: u128 = part as u128 * 1000;
    let w: u128 = whole as u128;
    let q: u128 = n / w;
    let r: u128 = n % w;
    assert(q <= n) by (nonlinear_arith)
        requires
            w >= 1,
            q == n / w,
    ;
    if 2 * r > w || (2 * r == w && q % 2 == 1) { q + 1 } else { q }
}

/// The report line on filtered records: how many, their share of everything read (to
/// one decimal place) and the total read.
pub open spec fn filtered_line_text(filtered: u64, total_read: u64) -> Seq<char> {
    let p = permille_of(filtered, total_read);
    "  filtered: "@ + decimal(filtered as int) + " records ("@ + decimal(p / 10) + "."@ + decimal(p % 10)
        + "% of "@ + decimal(total_read as int) + " total)"@
}

/// The error count line of the report.
pub open spec fn errors_line_text(s: ErrorStats) -> Seq<char> {
    "  Errors: "@ + decimal(s.total_errors as int) + " total ("@ + decimal(s.parse_errors as int) + " parse, "@
        + decimal(s.export_errors as int) + " export)"@
}

/// The line of error counts by kind.
pub open spec fn kinds_line_text(s: ErrorStats) -> Seq<char> {
    "  errors by type: encoding="@ + decimal(s.by_type.encoding_error as int) + ", field_missing="@
        + decimal(s.by_type.field_missing as int) + ", parse_failed="@ + decimal(s.by_type.parse_failed as int)
}

/// The hint shown when records failed to decode.
pub open spec fn encoding_hint_text() -> Seq<char> {
    "  hint: 多行 encoding_error — 建议检查文件编码是否为 GBK/GB18030"@
}

/// The hint shown when records missed fields.
pub open spec fn field_hint_text() -> Seq<char> {
    "  hint: 多行 field_missing — 建议确认日志格式与 DM SQL log 格式一致"@
}

/// The detail lines of the end-of-run report, in order: with errors, the error counts
/// and the counts by kind; with filtered records, the filtered share of all records
/// read; a hint for each kind of error that occurred among decoding and missing fields.
pub open spec fn summary_detail_text(s: ErrorStats, total_records: u64) -> Seq<Seq<char>> {
    let errors = if s.total_errors > 0 { seq![errors_line_text(s), kinds_line_text(s)] } else { Seq::empty() };
    let total_read = total_records + s.filtered_out;
    let filtered = if s.filtered_out > 0 && total_read <= u64::MAX {
        seq![filtered_line_text(s.filtered_out, total_read as u64)]
    } else {
        Seq::empty()
    };
    let enc = if s.by_type.encoding_error > 0 { seq![encoding_hint_text()] } else { Seq::empty() };
    let field = if s.by_type.field_missing > 0 { seq![field_hint_text()] } else { Seq::empty() };
    errors + filtered + enc + field
}

fn decimal_u64(n: u64) -> (s: String)
    ensures
        s@ == decimal(n as int),
{
    decimal_text(n as i128)
}

/// The report line on filtered records.
pub fn filtered_line(filtered: u64, total_read: u64) -> (s: String)
    ensures
        s@ == filtered_line_text(filtered, total_read),
{
    let p = permille(filtered, total_read);
    let mut s = "  filtered: ".to_owned();
    s.append(decimal_u64(filtered).as_str());
    s.append(" records (");
    s.append(decimal_text((p / 10) as i128).as_str());
    s.append(".");
    s.append(decimal_text((p % 10) as i128).as_str());
    s.append("% of ");
    s.append(decimal_u64(total_read).as_str());
    s.append(" total)");
    s
}

/// The detail lines of the end-of-run report; see [`summary_detail_text`]. A total of
/// records read that does not fit in `u64` leaves the filtered line out.
pub fn summary_detail_lines(s: &ErrorStats, total_records: u64) -> (lines: Vec<String>)
    ensures
        lines@.map_values(|l: String| l@) == summary_detail_text(*s, total_records),
{
    let mut lines: Vec<String> = Vec::new();
    if s.total_errors > 0 {
        let mut e = "  Errors: ".to_owned();
        e.append(decimal_text(s.total_errors as i128).as_str());
        e.append(" total (");
        e.append(decimal_text(s.parse_errors as i128).as_str());
        e.append(" parse, ");
        e.append(decimal_text(s.export_errors as i128).as_str());
        e.append(" export)");
        lines.push(e);
        let mut k = "  errors by type: encoding=".to_owned();
        k.append(decimal_u64(s.by_type.encoding_error).as_str());
        k.append(", field_missing=");
        k.append(decimal_u64(s.by_type.field_missing).as_str());
        k.append(", parse_failed=");
        k.append(decimal_u64(s.by_type.parse_failed).as_str());
        lines.push(k);
    }
    let ghost after_errors = lines@.map_values(|l: String| l@);
    if s.filtered_out > 0 && total_records <= u64::MAX - s.filtered_out {
        lines.push(filtered_line(s.filtered_out, total_records + s.filtered_out));
    }
    let ghost after_filtered = lines@.map_values(|l: String| l@);
    if s.by_type.encoding_error > 0 {
        lines.push("  hint: 多行 encoding_error — 建议检查文件编码是否为 GBK/GB18030".to_owned());
    }
    let ghost after_enc = lines@.map_values(|l: String| l@);
    if s.by_type.field_missing > 0 {
        lines.push(
            "  hint: 多行 field_missing — 建议确认日志格式与 DM SQL log 格式一致".to_owned(),
        );
    }
    proof {
        let errors = if s.total_errors > 0 { seq![errors_line_text(*s), kinds_line_text(*s)] } else { Seq::empty() };
        assert(after_errors =~= errors);
        let total_read = total_records + s.filtered_out;
        let filtered = if s.filtered_out > 0 && total_read <= u64::MAX {
            seq![filtered_line_text(s.filtered_out, total_read as u64)]
        } else {
            Seq::empty()
        };
        assert(after_filtered =~= errors + filtered);
        let enc = if s.by_type.encoding_error > 0 { seq![encoding_hint_text()] } else { Seq::empty() };
        assert(after_enc =~= errors + filtered + enc);
        assert(lines@.map_values(|l: String| l@) =~= summary_detail_text(*s, total_records));
    }
    lines
}

/// The error log line of one parse error.
pub open spec fn error_log_line_text(r: ParseErrorRecord) -> Seq<char> {
    "[ERROR] line "@ + decimal(r.line_number as int) + ": "@ + r.raw_truncated@ + "  reason: "@ + kind_text(r.kind)
}

/// The note ending an error log that could not hold every parse error.
pub open spec fn truncation_note_text(total: usize) -> Seq<char> {
    "[truncated; showing first 10000 of "@ + decimal(total as int) + " total parse errors]"@
}

/// The lines of the parse error log: one per kept parse error, in order, then a note
/// when more parse errors happened than were kept.
pub open spec fn error_log_text(s: ErrorStats) -> Seq<Seq<char>> {
    let recs = s.parse_error_records@.map_values(|r: ParseErrorRecord| error_log_line_text(r));
    if s.parse_errors > s.parse_error_records@.len() { recs.push(truncation_note_text(s.parse_errors)) } else { recs }
}

/// The lines of the parse error log; see [`error_log_text`]. A run without kept parse
/// errors writes no log at all, which the caller decides.
pub fn error_log_lines(s: &ErrorStats) -> (lines: Vec<String>)
    ensures
        lines@.map_values(|l: String| l@) == error_log_text(*s),
{
    let mut lines: Vec<String> = Vec::new();
    let ghost recs = s.parse_error_records@.map_values(|r: ParseErrorRecord| error_log_line_text(r));
    let n = s.parse_error_records.len();
    let mut k: usize = 0;
    while k < n
        invariant
            n == s.parse_error_records@.len(),
            recs == s.parse_error_records@.map_values(|r: ParseErrorRecord| error_log_line_text(r)),
            k <= n,
            lines@.len() == k,
            lines@.map_values(|l: String| l@) == recs.take(k as int),
        decreases n - k,
    {
        let r = &s.parse_error_records[k];
        let mut line = "[ERROR] line ".to_owned();
        line.append(decimal_u64(r.line_number).as_str());
        line.append(": ");
        line.append(r.raw_truncated.as_str());
        line.append("  reason: ");
        line.append(r.kind.kind_display());
        assert(*r == s.parse_error_records@[k as int]);
        assert(line@ =~= error_log_line_text(*r));
        let ghost before = lines@;
        let ghost line_view = line@;
        lines.push(line);
        proof {
            assert(lines@ == before.push(lines@[k as int]));
            assert(lines@[k as int]@ == line_view);
            assert(recs[k as int] == error_log_line_text(s.parse_error_records@[k as int]));
            assert(recs.take(k + 1) =~= recs.take(k as int).push(recs[k as int]));
            assert(lines@.map_values(|l: String| l@) =~= before.map_values(|l: String| l@).push(line_view));
            assert(lines@.map_values(|l: String| l@) =~= recs.take(k + 1));
        }
        k = k + 1;
    }
    proof {
        assert(recs.take(n as int) =~= recs);
    }
    if s.parse_errors > n {
        let mut note = "[truncated; showing first 10000 of ".to_owned();
        note.append(decimal_text(s.parse_errors as i128).as_str());
        note.append(" total parse errors]");
        lines.push(note);
        proof {
            assert(lines@.map_values(|l: String| l@) =~= recs.push(truncation_note_text(s.parse_errors)));
        }
    }
    lines
}

} // verus!
