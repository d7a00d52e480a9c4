//! The companion CSV file of SQL template statistics.
use crate::exporter::csv_row::{append_decimal, append_quoted, decimal_bytes, quoted, utf8_of};
use vstd::prelude::*;

verus! {

/// Aggregated timings of one normalized SQL template.
pub struct TemplateStats {
    pub template_key: String,
    pub count: u64,
    pub avg_us: u64,
    pub min_us: u64,
    pub max_us: u64,
    pub p50_us: u64,
    pub p95_us: u64,
    pub p99_us: u64,
    pub first_seen: String,
    pub last_seen: String,
}

/// The companion line of one template: the quoted key, the counters in decimal, the
/// quoted first and last timestamps, separated by commas and ending the line.
pub open spec fn companion_row(s: TemplateStats) -> Seq<u8> {
    let c = seq![44u8];
    quoted(utf8_of(s.template_key@)) + c + decimal_bytes(s.count as int) + c + decimal_bytes(s.avg_us as int)
        + c + decimal_bytes(s.min_us as int) + c + decimal_bytes(s.max_us as int) + c
        + decimal_bytes(s.p50_us as int) + c + decimal_bytes(s.p95_us as int) + c
        + decimal_bytes(s.p99_us as int) + c + quoted(utf8_of(s.first_seen@)) + c
        + quoted(utf8_of(s.last_seen@)) + seq![10u8]
}

/// Fills `buf` with the companion line of one template; what was there is dropped.
pub fn format_companion_row(buf: &mut Vec<u8>, s: &TemplateStats)
    ensures
        final(buf)@ == companion_row(*s),
{
    buf.clear();
    let ghost c = seq![44u8];
    append_quoted(buf, s.template_key.as_str());
    let ghost mut acc = quoted(utf8_of(s.template_key@));
    assert(buf@ =~= acc);
    buf.push(44u8);
    append_decimal(buf, s.count as i128);
    proof { acc = acc + c + decimal_bytes(s.count as int); }
    assert(buf@ =~= acc);
    buf.push(44u8);
    append_decimal(buf, s.avg_us as i128);
    proof { acc = acc + c + decimal_bytes(s.avg_us as int); }
    assert(buf@ =~= acc);
    buf.push(44u8);
    append_decimal(buf, s.min_us as i128);
    proof { acc = acc + c + decimal_bytes(s.min_us as int); }
    assert(buf@ =~= acc);
    buf.push(44u8);
    append_decimal(buf, s.max_us as i128);
    proof { acc = acc + c + decimal_bytes(s.max_us as int); }
    assert(buf@ =~= acc);
    buf.push(44u8);
    append_decimal(buf, s.p50_us as i128);
    proof { acc = acc + c + decimal_bytes(s.p50_us as int); }
    assert(buf@ =~= acc);
    buf.push(44u8);
    append_decimal(buf, s.p95_us as i128);
    proof { acc = acc + c + decimal_bytes(s.p95_us as int); }
    assert(buf@ =~= acc);
    buf.push(44u8);
    append_decimal(buf, s.p99_us as i128);
    proof { acc = acc + c + decimal_bytes(s.p99_us as int); }
    assert(buf@ =~= acc);
    buf.push(44u8);
    append_quoted(buf, s.first_seen.as_str());
    proof { acc = acc + c + quoted(utf8_of(s.first_seen@)); }
    assert(buf@ =~= acc);
    buf.push(44u8);
    append_quoted(buf, s.last_seen.as_str());
    proof { acc = acc + c + quoted(utf8_of(s.last_seen@)); }
    assert(buf@ =~= acc);
    buf.push(10u8);
    assert(buf@ =~= companion_row(*s));
}

} // verus!
