//! CSV rows of log records: quoting, the full row and projected rows.
use crate::exporter::fields::FIELD_COUNT;
pub use crate::exporter::record::LogRecord;
use crate::exporter::util::{ip_prefix_sliceable, strip_ip_prefix, stripped_ip};
use crate::text::{decimal, decimal_text};
use vstd::prelude::*;
use vstd::string::StringSliceAdditionalSpecFns;
use vstd::utf8::encode_utf8;

verus! {

/// A byte as CSV writes it inside quotes: `"` doubled, anything else as it is.
pub open spec fn escaped_byte(b: u8) -> Seq<u8> {
    if b == 34u8 { seq![34u8, 34u8] } else { seq![b] }
}

/// Bytes with every `"` doubled.
pub open spec fn csv_escaped(b: Seq<u8>) -> Seq<u8>
    decreases b.len(),
{
    if b.len() == 0 {
        Seq::empty()
    } else {
        csv_escaped(b.drop_last()) + escaped_byte(b.last())
    }
}

/// Escaping distributes over concatenation.
pub proof fn lemma_escaped_append(a: Seq<u8>, b: Seq<u8>)
    ensures
        csv_escaped(a + b) == csv_escaped(a) + csv_escaped(b),
    decreases b.len(),
{
    if b.len() == 0 {
        assert(a + b =~= a);
    } else {
        lemma_escaped_append(a, b.drop_last());
        assert((a + b).drop_last() =~= a + b.drop_last());
        assert((a + b).last() == b.last());
    }
}

/// Bytes without `"` are their own escaping.
pub proof fn lemma_escaped_plain(b: Seq<u8>)
    requires
        forall|i: int| 0 <= i < b.len() ==> #[trigger] b[i] != 34u8,
    ensures
        csv_escaped(b) == b,
    decreases b.len(),
{
    if b.len() > 0 {
        lemma_escaped_plain(b.drop_last());
        assert(b.drop_last().push(b.last()) =~= b);
    }
}

/// Reads back a field escaped by [`csv_escaped`]: a trailing pair of quotes stands for
/// one quote, any other trailing byte for itself.
pub open spec fn csv_unescaped(b: Seq<u8>) -> Seq<u8>
    decreases b.len(),
{
    if b.len() == 0 {
        Seq::empty()
    } else if b.len() >= 2 && b.last() == 34u8 && b[b.len() - 2] == 34u8 {
        csv_unescaped(b.subrange(0, b.len() - 2)).push(34u8)
    } else {
        csv_unescaped(b.drop_last()).push(b.last())
    }
}

/// Escaping loses nothing: for all bytes, reading back the escaped field gives the
/// bytes again.
pub proof fn lemma_unescape_escaped(b: Seq<u8>)
    ensures
        csv_unescaped(csv_escaped(b)) == b,
    decreases b.len(),
{
    if b.len() > 0 {
        lemma_unescape_escaped(b.drop_last());
        let e = csv_escaped(b);
        let prev = csv_escaped(b.drop_last());
        if b.last() == 34u8 {
            assert(e == prev + seq![34u8, 34u8]);
            assert(e.subrange(0, e.len() - 2) =~= prev);
        } else {
            assert(e == prev + seq![b.last()]);
            assert(e.drop_last() =~= prev);
        }
        assert(b.drop_last().push(b.last()) =~= b);
    }
}

/// `memchr::memchr`: the position of the first occurrence of `needle`, if any.
#[verifier::external_body]
fn find_byte(needle: u8, haystack: &[u8]) -> (r: Option<usize>)
    ensures
        match r {
            None => forall|i: int| 0 <= i < haystack@.len() ==> #[trigger] haystack@[i] != needle,
            Some(p) => {
                &&& p < haystack@.len()
                &&& haystack@[p as int] == needle
                &&& forall|i: int| 0 <= i < p ==> #[trigger] haystack@[i] != needle
            },
        },
{
    memchr::memchr(needle, haystack)
}

/// Appends bytes to the buffer.
pub(crate) fn append_bytes(buf: &mut Vec<u8>, bytes: &[u8])
    ensures
        final(buf)@ == old(buf)@ + bytes@,
{
    buf.extend_from_slice(bytes);
    assert forall|i: int| 0 <= i < buf@.len() implies #[trigger] buf@[i] == (old(buf)@ + bytes@)[i] by {
        if i >= old(buf)@.len() {
            assert(cloned::<u8>(bytes@[i - old(buf)@.len()], buf@[i]));
        }
    }
    assert(buf@ =~= old(buf)@ + bytes@);
}

/// Appends `bytes` to `buf` with every `"` doubled.
pub fn write_csv_escaped(buf: &mut Vec<u8>, bytes: &[u8])
    ensures
        final(buf)@ == old(buf)@ + csv_escaped(bytes@),
{
    let ghost start = buf@;
    let mut remaining: &[u8] = bytes;
    let ghost mut done: int = 0;
    loop
        invariant
            0 <= done <= bytes@.len(),
            start == old(buf)@,
            remaining@ == bytes@.subrange(done, bytes@.len() as int),
            buf@ == start + csv_escaped(bytes@.subrange(0, done)),
        decreases remaining@.len(),
    {
        let rlen = remaining.len();
        match find_byte(34u8, remaining) {
            Some(pos) => {
                let chunk = vstd::slice::slice_subrange(remaining, 0, pos + 1);
                append_bytes(buf, chunk);
                buf.push(34u8);
                proof {
                    let plain = remaining@.subrange(0, pos as int);
                    lemma_escaped_plain(plain);
                    assert(chunk@ =~= plain.push(34u8));
                    assert(csv_escaped(plain.push(34u8)) == csv_escaped(plain) + escaped_byte(34u8)) by {
                        assert(plain.push(34u8).drop_last() =~= plain);
                    }
                    lemma_escaped_append(bytes@.subrange(0, done), chunk@);
                    assert(bytes@.subrange(0, done) + chunk@ =~= bytes@.subrange(0, done + pos + 1));
                    assert(buf@ =~= start + csv_escaped(bytes@.subrange(0, done + pos + 1)));
                    done = done + pos + 1;
                }
                remaining = vstd::slice::slice_subrange(remaining, pos + 1, rlen);
            },
            None => {
                append_bytes(buf, remaining);
                proof {
                    lemma_escaped_plain(remaining@);
                    lemma_escaped_append(bytes@.subrange(0, done), remaining@);
                    assert(bytes@.subrange(0, done) + remaining@ =~= bytes@);
                    assert(bytes@.subrange(0, bytes@.len() as int) =~= bytes@);
                }
                return;
            },
        }
    }
}

/// The UTF-8 bytes of a text.
pub open spec fn utf8_of(s: Seq<char>) -> Seq<u8> {
    encode_utf8(s)
}

/// The decimal text of an integer, as bytes.
pub open spec fn decimal_bytes(n: int) -> Seq<u8> {
    encode_utf8(decimal(n))
}

/// Bytes in double quotes, with inner quotes doubled.
pub open spec fn quoted(b: Seq<u8>) -> Seq<u8> {
    seq![34u8] + csv_escaped(b) + seq![34u8]
}

/// The CSV text of column `i` of a record; `ns` is the normalized SQL, if any.
pub open spec fn field_bytes(r: LogRecord, i: int, ns: Option<&str>) -> Seq<u8> {
    if i == 0 {
        utf8_of(r.ts@)
    } else if i == 1 {
        decimal_bytes(r.ep as int)
    } else if i == 2 {
        utf8_of(r.sess_id@)
    } else if i == 3 {
        utf8_of(r.thrd_id@)
    } else if i == 4 {
        utf8_of(r.username@)
    } else if i == 5 {
        utf8_of(r.trxid@)
    } else if i == 6 {
        utf8_of(r.statement@)
    } else if i == 7 {
        utf8_of(r.appname@)
    } else if i == 8 {
        stripped_ip(utf8_of(r.client_ip@))
    } else if i == 9 {
        match r.tag {
            Some(t) => utf8_of(t@),
            None => Seq::empty(),
        }
    } else if i == 10 {
        quoted(utf8_of(r.sql@))
    } else if i == 11 {
        if r.has_metrics() { decimal_bytes(r.exec_time_ms as int) } else { Seq::empty() }
    } else if i == 12 {
        if r.has_metrics() { decimal_bytes(r.rowcount as int) } else { Seq::empty() }
    } else if i == 13 {
        if r.has_metrics() { decimal_bytes(r.exec_id as int) } else { Seq::empty() }
    } else {
        match ns {
            Some(s) => quoted(utf8_of(s@)),
            None => Seq::empty(),
        }
    }
}

/// Column `i` is written: the record columns always, the performance columns when
/// they are wanted, the normalized SQL when normalizing.
pub open spec fn visible(i: int, normalize: bool, include_pm: bool) -> bool {
    ||| 0 <= i <= 10
    ||| (11 <= i <= 13 && include_pm)
    ||| (i == 14 && normalize)
}

/// The texts of the written columns among `idx`, in order.
pub open spec fn visible_fields(
    r: LogRecord,
    ns: Option<&str>,
    idx: Seq<usize>,
    normalize: bool,
    include_pm: bool,
) -> Seq<Seq<u8>>
    decreases idx.len(),
{
    if idx.len() == 0 {
        Seq::empty()
    } else {
        let prev = visible_fields(r, ns, idx.drop_last(), normalize, include_pm);
        if visible(idx.last() as int, normalize, include_pm) {
            prev.push(field_bytes(r, idx.last() as int, ns))
        } else {
            prev
        }
    }
}

/// Byte texts joined with `,`.
pub open spec fn byte_joined(items: Seq<Seq<u8>>) -> Seq<u8>
    decreases items.len(),
{
    if items.len() == 0 {
        Seq::empty()
    } else if items.len() == 1 {
        items[0]
    } else {
        byte_joined(items.drop_last()) + seq![44u8] + items.last()
    }
}

/// The CSV row of the chosen columns (without the line end).
pub open spec fn selected_row(
    r: LogRecord,
    ns: Option<&str>,
    idx: Seq<usize>,
    normalize: bool,
    include_pm: bool,
) -> Seq<u8> {
    byte_joined(visible_fields(r, ns, idx, normalize, include_pm))
}

/// The record columns up to and including column `k`, separated by commas.
pub open spec fn base_prefix(r: LogRecord, ns: Option<&str>, k: int) -> Seq<u8>
    decreases k,
{
    if k <= 0 {
        field_bytes(r, 0, ns)
    } else {
        base_prefix(r, ns, k - 1) + seq![44u8] + field_bytes(r, k, ns)
    }
}

/// The record columns (the first eleven), separated by commas.
pub open spec fn base_row(r: LogRecord, ns: Option<&str>) -> Seq<u8> {
    base_prefix(r, ns, 10)
}

/// The CSV row of every column (without the line end).
pub open spec fn full_row(r: LogRecord, ns: Option<&str>, normalize: bool, include_pm: bool) -> Seq<u8> {
    let c = seq![44u8];
    let base = base_row(r, ns);
    let pm = if include_pm {
        c + field_bytes(r, 11, ns) + c + field_bytes(r, 12, ns) + c + field_bytes(r, 13, ns)
    } else {
        Seq::empty()
    };
    let norm = if normalize { c + field_bytes(r, 14, ns) } else { Seq::empty() };
    base + pm + norm
}

/// The column indices in natural order.
pub open spec fn natural_indices(n: nat) -> Seq<usize> {
    Seq::new(n, |k: int| k as usize)
}

/// A record whose client address can be looked at for the mapped prefix.
pub open spec fn record_writable(r: LogRecord) -> bool {
    ip_prefix_sliceable(utf8_of(r.client_ip@))
}

pub(crate) fn append_text(buf: &mut Vec<u8>, s: &str)
    ensures
        final(buf)@ == old(buf)@ + utf8_of(s@),
{
    append_bytes(buf, s.as_bytes());
}

pub(crate) fn append_decimal(buf: &mut Vec<u8>, n: i128)
    ensures
        final(buf)@ == old(buf)@ + decimal_bytes(n as int),
{
    let t = decimal_text(n);
    append_text(buf, t.as_str());
}

pub(crate) fn append_quoted(buf: &mut Vec<u8>, s: &str)
    ensures
        final(buf)@ == old(buf)@ + quoted(utf8_of(s@)),
{
    buf.push(34u8);
    write_csv_escaped(buf, s.as_bytes());
    buf.push(34u8);
    assert(buf@ =~= old(buf)@ + quoted(utf8_of(s@)));
}

/// Appends the CSV text of column `i`.
fn append_field(buf: &mut Vec<u8>, r: &LogRecord, i: usize, ns: Option<&str>, has_metrics: bool)
    requires
        i < FIELD_COUNT,
        i == 8 ==> record_writable(*r),
        has_metrics == r.has_metrics(),
    ensures
        final(buf)@ == old(buf)@ + field_bytes(*r, i as int, ns),
{
    match i {
        0 => append_text(buf, r.ts.as_str()),
        1 => append_decimal(buf, r.ep as i128),
        2 => append_text(buf, r.sess_id.as_str()),
        3 => append_text(buf, r.thrd_id.as_str()),
        4 => append_text(buf, r.username.as_str()),
        5 => append_text(buf, r.trxid.as_str()),
        6 => append_text(buf, r.statement.as_str()),
        7 => append_text(buf, r.appname.as_str()),
        8 => {
            let ip = strip_ip_prefix(r.client_ip.as_str());
            append_bytes(buf, ip.as_bytes());
        },
        9 => {
            match &r.tag {
                Some(t) => append_text(buf, t.as_str()),
                None => {
                    assert(buf@ =~= old(buf)@ + Seq::<u8>::empty());
                },
            }
        },
        10 => append_quoted(buf, r.sql.as_str()),
        11 => {
            if has_metrics {
                append_decimal(buf, r.exec_time_ms as i128);
            } else {
                assert(buf@ =~= old(buf)@ + Seq::<u8>::empty());
            }
        },
        12 => {
            if has_metrics {
                append_decimal(buf, r.rowcount as i128);
            } else {
                assert(buf@ =~= old(buf)@ + Seq::<u8>::empty());
            }
        },
        13 => {
            if has_metrics {
                append_decimal(buf, r.exec_id as i128);
            } else {
                assert(buf@ =~= old(buf)@ + Seq::<u8>::empty());
            }
        },
        _ => {
            match ns {
                Some(s) => append_quoted(buf, s),
                None => {
                    assert(buf@ =~= old(buf)@ + Seq::<u8>::empty());
                },
            }
        },
    }
}

/// Joining one more text adds a comma and the text.
pub proof fn lemma_byte_joined_push(xs: Seq<Seq<u8>>, y: Seq<u8>)
    ensures
        byte_joined(xs.push(y)) == (if xs.len() == 0 {
            y
        } else {
            byte_joined(xs) + seq![44u8] + y
        }),
{
    assert(xs.push(y).drop_last() =~= xs);
}

/// One more index adds that column's text when it is written.
pub proof fn lemma_visible_step(
    r: LogRecord,
    ns: Option<&str>,
    idx: Seq<usize>,
    k: int,
    normalize: bool,
    include_pm: bool,
)
    requires
        0 <= k < idx.len(),
    ensures
        visible_fields(r, ns, idx.take(k + 1), normalize, include_pm) == (if visible(
            idx[k] as int,
            normalize,
            include_pm,
        ) {
            visible_fields(r, ns, idx.take(k), normalize, include_pm).push(field_bytes(r, idx[k] as int, ns))
        } else {
            visible_fields(r, ns, idx.take(k), normalize, include_pm)
        }),
{
    assert(idx.take(k + 1).drop_last() =~= idx.take(k));
    assert(idx.take(k + 1).last() == idx[k]);
}

/// Whether column `i` is written.
fn is_visible(i: usize, normalize: bool, include_pm: bool) -> (b: bool)
    ensures
        b == visible(i as int, normalize, include_pm),
{
    i <= 10 || (11 <= i && i <= 13 && include_pm) || (i == 14 && normalize)
}

/// Appends the chosen columns of a record, in the given order, separated by commas.
/// Performance columns are written only when `include_performance_metrics` holds, the
/// normalized SQL only when `normalize` holds, and unknown indices are passed over.
pub fn write_selected_fields(
    line_buf: &mut Vec<u8>,
    r: &LogRecord,
    normalize: bool,
    normalized_sql: Option<&str>,
    ordered_indices: &[usize],
    include_performance_metrics: bool,
)
    requires
        ordered_indices@.contains(8usize) ==> record_writable(*r),
    ensures
        final(line_buf)@ == old(line_buf)@ + selected_row(
            *r,
            normalized_sql,
            ordered_indices@,
            normalize,
            include_performance_metrics,
        ),
{
    let ghost start = line_buf@;
    let ghost idx = ordered_indices@;
    let has_metrics = r.exec_id != 0 || r.exec_time_positive || r.rowcount != 0;
    let mut need_sep = false;
    let n = ordered_indices.len();
    let mut k: usize = 0;
    while k < n
        invariant
            n == ordered_indices.len(),
            idx == ordered_indices@,
            idx.contains(8usize) ==> record_writable(*r),
            has_metrics == r.has_metrics(),
            start == old(line_buf)@,
            k <= n,
            line_buf@ == start + byte_joined(
                visible_fields(*r, normalized_sql, idx.take(k as int), normalize, include_performance_metrics),
            ),
            need_sep == (visible_fields(
                *r,
                normalized_sql,
                idx.take(k as int),
                normalize,
                include_performance_metrics,
            ).len() > 0),
        decreases n - k,
    {
        let i = ordered_indices[k];
        proof {
            if i == 8 {
                assert(idx[k as int] == 8usize);
                assert(idx.contains(8usize));
            }
        }
        let ghost prev = visible_fields(*r, normalized_sql, idx.take(k as int), normalize, include_performance_metrics);
        proof {
            lemma_visible_step(*r, normalized_sql, idx, k as int, normalize, include_performance_metrics);
        }
        if is_visible(i, normalize, include_performance_metrics) {
            proof {
                lemma_byte_joined_push(prev, field_bytes(*r, i as int, normalized_sql));
            }
            if need_sep {
                line_buf.push(44u8);
            }
            need_sep = true;
            append_field(line_buf, r, i, normalized_sql, has_metrics);
            proof {
                assert(line_buf@ =~= start + byte_joined(
                    visible_fields(*r, normalized_sql, idx.take(k + 1), normalize, include_performance_metrics),
                ));
            }
        }
        k = k + 1;
    }
    proof {
        assert(idx.take(n as int) =~= idx);
    }
}

/// Appends the first eleven columns of a record, separated by commas.
fn write_record_columns(line_buf: &mut Vec<u8>, r: &LogRecord, ns: Option<&str>, has_metrics: bool)
    requires
        record_writable(*r),
        has_metrics == r.has_metrics(),
    ensures
        final(line_buf)@ == old(line_buf)@ + base_row(*r, ns),
{
    let ghost start = line_buf@;
    let ghost c = seq![44u8];
    append_field(line_buf, r, 0, ns, has_metrics);
    let ghost mut acc = field_bytes(*r, 0, ns);
    assert(line_buf@ =~= start + acc);
    let mut i: usize = 1;
    while i <= 10
        invariant
            1 <= i <= 11,
            record_writable(*r),
            has_metrics == r.has_metrics(),
            c == seq![44u8],
            line_buf@ =~= start + acc,
            acc == base_prefix(*r, ns, (i - 1) as int),
        decreases 11 - i,
    {
        line_buf.push(44u8);
        append_field(line_buf, r, i, ns, has_metrics);
        proof {
            acc = acc + c + field_bytes(*r, i as int, ns);
        }
        assert(line_buf@ =~= start + acc);
        i = i + 1;
    }
}

/// Appends every column of a record, separated by commas: the record columns, then the
/// performance columns when wanted (empty when the record has no figures), then the
/// normalized SQL when normalizing.
#[verifier::spinoff_prover]
#[verifier::rlimit(40)]
pub fn write_all_fields(
    line_buf: &mut Vec<u8>,
    r: &LogRecord,
    normalize: bool,
    normalized_sql: Option<&str>,
    include_performance_metrics: bool,
)
    requires
        record_writable(*r),
    ensures
        final(line_buf)@ == old(line_buf)@ + full_row(*r, normalized_sql, normalize, include_performance_metrics),
{
    let has_metrics = r.exec_id != 0 || r.exec_time_positive || r.rowcount != 0;
    let ns = normalized_sql;
    write_record_columns(line_buf, r, ns, has_metrics);
    let ghost base = line_buf@;
    if include_performance_metrics {
        line_buf.push(44u8);
        if has_metrics {
            append_field(line_buf, r, 11, ns, has_metrics);
            line_buf.push(44u8);
            append_field(line_buf, r, 12, ns, has_metrics);
            line_buf.push(44u8);
            append_field(line_buf, r, 13, ns, has_metrics);
        } else {
            line_buf.push(44u8);
            line_buf.push(44u8);
        }
    }
    let ghost with_pm = line_buf@;
    assert(with_pm =~= base + (if include_performance_metrics {
        seq![44u8] + field_bytes(*r, 11, ns) + seq![44u8] + field_bytes(*r, 12, ns) + seq![44u8]
            + field_bytes(*r, 13, ns)
    } else {
        Seq::empty()
    }));
    if normalize {
        line_buf.push(44u8);
        match ns {
            Some(s) => append_quoted(line_buf, s),
            None => {},
        }
    }
    assert(line_buf@ =~= with_pm + (if normalize { seq![44u8] + field_bytes(*r, 14, ns) } else { Seq::empty() }));
    assert(line_buf@ =~= old(line_buf)@ + full_row(*r, normalized_sql, normalize, include_performance_metrics));
}

/// The record columns come out of the projection path in the same form as the full row.
proof fn lemma_prefix_columns(r: LogRecord, ns: Option<&str>, k: int, normalize: bool, include_pm: bool)
    requires
        0 <= k <= 10,
    ensures
        visible_fields(r, ns, natural_indices(15).take(k + 1), normalize, include_pm).len() == k + 1,
        byte_joined(visible_fields(r, ns, natural_indices(15).take(k + 1), normalize, include_pm))
            == base_prefix(r, ns, k),
    decreases k,
{
    let idx = natural_indices(15);
    lemma_visible_step(r, ns, idx, k, normalize, include_pm);
    let prev = visible_fields(r, ns, idx.take(k), normalize, include_pm);
    lemma_byte_joined_push(prev, field_bytes(r, k, ns));
    if k == 0 {
        assert(idx.take(0) =~= Seq::<usize>::empty());
    } else {
        lemma_prefix_columns(r, ns, k - 1, normalize, include_pm);
    }
}

/// The projection path with every column in natural order writes exactly the full row:
/// for every record, normalized SQL and pair of switches, `selected_row` over the
/// indices `0..15` equals `full_row`.
pub proof fn lemma_all_columns_projection_is_full_row(
    r: LogRecord,
    ns: Option<&str>,
    normalize: bool,
    include_pm: bool,
)
    ensures
        selected_row(r, ns, natural_indices(FIELD_COUNT as nat), normalize, include_pm) == full_row(
            r,
            ns,
            normalize,
            include_pm,
        ),
{
    let idx = natural_indices(15);
    let c = seq![44u8];
    lemma_prefix_columns(r, ns, 10, normalize, include_pm);
    let v11 = visible_fields(r, ns, idx.take(11), normalize, include_pm);
    lemma_visible_step(r, ns, idx, 11, normalize, include_pm);
    lemma_byte_joined_push(v11, field_bytes(r, 11, ns));
    let v12 = visible_fields(r, ns, idx.take(12), normalize, include_pm);
    lemma_visible_step(r, ns, idx, 12, normalize, include_pm);
    lemma_byte_joined_push(v12, field_bytes(r, 12, ns));
    let v13 = visible_fields(r, ns, idx.take(13), normalize, include_pm);
    lemma_visible_step(r, ns, idx, 13, normalize, include_pm);
    lemma_byte_joined_push(v13, field_bytes(r, 13, ns));
    let v14 = visible_fields(r, ns, idx.take(14), normalize, include_pm);
    lemma_visible_step(r, ns, idx, 14, normalize, include_pm);
    lemma_byte_joined_push(v14, field_bytes(r, 14, ns));
    assert(idx.take(15) =~= idx);
    let b = base_row(r, ns);
    let pm = if include_pm {
        c + field_bytes(r, 11, ns) + c + field_bytes(r, 12, ns) + c + field_bytes(r, 13, ns)
    } else {
        Seq::empty()
    };
    assert(byte_joined(v14) =~= b + pm);
    assert(byte_joined(visible_fields(r, ns, idx, normalize, include_pm)) =~= full_row(r, ns, normalize, include_pm));
}

} // verus!
