//! Splitting CSV output over numbered files: file names and the row counter.
use crate::text::{decimal, decimal_text, digit_char, digits};
use vstd::prelude::*;
use vstd::string::StringSliceAdditionalSpecFns;
use vstd::utf8::{encode_scalar, encode_utf8};

verus! {

/// The name of split file `index`: `{stem}_{index}.{ext}`.
pub open spec fn split_file_name_text(stem: Seq<char>, index: int, ext: Seq<char>) -> Seq<char> {
    stem + "_"@ + decimal(index) + "."@ + ext
}

/// The name of split file `index`: `{stem}_{index}.{ext}`.
pub fn split_file_name(stem: &str, index: usize, ext: &str) -> (name: String)
    ensures
        name@ == split_file_name_text(stem@, index as int, ext@),
{
    let mut name = stem.to_owned();
    name.append("_");
    let digits = decimal_text(index as i128);
    name.append(digits.as_str());
    name.append(".");
    name.append(ext);
    name
}

/// An ASCII decimal digit.
pub open spec fn is_ascii_digit(b: u8) -> bool {
    48 <= b <= 57
}

/// The bytes of `name` are `stem`, `_`, one or more ASCII digits, `.` and `ext`.
pub open spec fn is_split_name_bytes(name: Seq<u8>, stem: Seq<u8>, ext: Seq<u8>) -> bool {
    let p = stem.len() + 1;
    let q = ext.len() + 1;
    &&& name.len() > p + q
    &&& name.take(stem.len() as int) == stem
    &&& name[stem.len() as int] == 95u8
    &&& name[name.len() - q] == 46u8
    &&& name.skip(name.len() - ext.len()) == ext
    &&& forall|i: int| p <= i < name.len() - q ==> #[trigger] is_ascii_digit(name[i])
}

/// Bytes `a[from..from + b.len()]` equal `b`.
fn bytes_equal_at(a: &[u8], from: usize, b: &[u8]) -> (r: bool)
    requires
        from + b@.len() <= a@.len(),
    ensures
        r == (a@.subrange(from as int, from + b@.len()) == b@),
{
    let n = b.len();
    let alen = a.len();
    let mut i: usize = 0;
    while i < n
        invariant
            n == b@.len(),
            alen == a@.len(),
            from + n <= a@.len(),
            i <= n,
            forall|j: int| 0 <= j < i ==> a@[from + j] == #[trigger] b@[j],
        decreases n - i,
    {
        if a[from + i] != b[i] {
            assert(a@.subrange(from as int, from + n)[i as int] != b@[i as int]);
            return false;
        }
        i = i + 1;
    }
    assert(a@.subrange(from as int, from + n) =~= b@);
    true
}

/// Whether `name` is a split file of `stem` and `ext`: `{stem}_<digits>.{ext}` with at
/// least one digit. The main file `{stem}.{ext}` and names such as `{stem}_final.{ext}`
/// are not.
pub fn is_split_file_name(name: &str, stem: &str, ext: &str) -> (r: bool)
    ensures
        r == is_split_name_bytes(name.spec_bytes(), stem.spec_bytes(), ext.spec_bytes()),
{
    let nb = name.as_bytes();
    let sb = stem.as_bytes();
    let eb = ext.as_bytes();
    let n = nb.len();
    if sb.len() >= n || eb.len() >= n {
        return false;
    }
    let p = sb.len() + 1;
    let q = eb.len() + 1;
    if n - p <= q {
        return false;
    }
    if !bytes_equal_at(nb, 0, sb) {
        assert(nb@.take(sb@.len() as int) =~= nb@.subrange(0, sb@.len() as int));
        return false;
    }
    assert(nb@.take(sb@.len() as int) =~= nb@.subrange(0, sb@.len() as int));
    if nb[sb.len()] != 95u8 {
        return false;
    }
    if nb[n - q] != 46u8 {
        return false;
    }
    if !bytes_equal_at(nb, n - eb.len(), eb) {
        assert(nb@.skip(n - eb@.len()) =~= nb@.subrange(n - eb@.len(), n as int));
        return false;
    }
    assert(nb@.skip(n - eb@.len()) =~= nb@.subrange(n - eb@.len(), n as int));
    let mut i: usize = p;
    while i < n - q
        invariant
            nb@.len() == n,
            nb@ == name.spec_bytes(),
            sb@ == stem.spec_bytes(),
            eb@ == ext.spec_bytes(),
            p == sb@.len() + 1,
            q == eb@.len() + 1,
            n > p + q,
            nb@.take(sb@.len() as int) == sb@,
            nb@[sb@.len() as int] == 95u8,
            nb@[n - q] == 46u8,
            nb@.skip(n - eb@.len()) == eb@,
            p <= i <= n - q,
            q <= n,
            forall|j: int| p <= j < i ==> #[trigger] is_ascii_digit(nb@[j]),
        decreases n - q - i,
    {
        if nb[i] < 48u8 || nb[i] > 57u8 {
            assert(!is_ascii_digit(nb@[i as int]));
            return false;
        }
        i = i + 1;
    }
    true
}

/// Where a splitting CSV exporter stands: the row limit per file (none: one file), the
/// rows in the current file and the current file number (0 before splitting starts).
pub struct CsvSplitState {
    pub max_rows_per_file: Option<usize>,
    pub rows_in_file: usize,
    pub file_index: usize,
}

impl CsvSplitState {
    /// A state that has written nothing.
    pub fn new(max_rows_per_file: Option<usize>) -> (s: Self)
        ensures
            s.max_rows_per_file == max_rows_per_file,
            s.rows_in_file == 0,
            s.file_index == 0,
    {
        CsvSplitState { max_rows_per_file, rows_in_file: 0, file_index: 0 }
    }

    /// Starts the output: with a row limit, numbering starts at file 1.
    pub fn begin(&mut self)
        ensures
            final(self).max_rows_per_file == old(self).max_rows_per_file,
            final(self).rows_in_file == 0,
            final(self).file_index == (if old(self).max_rows_per_file is Some {
                1
            } else {
                old(self).file_index as int
            }),
    {
        if self.max_rows_per_file.is_some() {
            self.file_index = 1;
        }
        self.rows_in_file = 0;
    }

    /// The number that names the current file, or `None` when the configured path
    /// itself is written (no splitting, or splitting not started).
    pub fn numbered_file(&self) -> (n: Option<usize>)
        ensures
            n == (if self.file_index == 0 || self.max_rows_per_file is None {
                None
            } else {
                Some(self.file_index)
            }),
    {
        if self.file_index == 0 || self.max_rows_per_file.is_none() {
            None
        } else {
            Some(self.file_index)
        }
    }

    /// Counts a written row and says whether the current file is full, so that the
    /// next row goes to a new file. Without a limit no file is ever full.
    pub fn row_written(&mut self) -> (full: bool)
        requires
            old(self).rows_in_file < usize::MAX,
        ensures
            final(self).max_rows_per_file == old(self).max_rows_per_file,
            final(self).file_index == old(self).file_index,
            final(self).rows_in_file == old(self).rows_in_file + 1,
            full == (match old(self).max_rows_per_file {
                Some(m) => final(self).rows_in_file >= m,
                None => false,
            }),
    {
        self.rows_in_file = self.rows_in_file + 1;
        match self.max_rows_per_file {
            Some(m) => self.rows_in_file >= m,
            None => false,
        }
    }

    /// Moves on to the next numbered file, which starts empty.
    pub fn next_file(&mut self)
        requires
            old(self).file_index < usize::MAX,
        ensures
            final(self).max_rows_per_file == old(self).max_rows_per_file,
            final(self).file_index == old(self).file_index + 1,
            final(self).rows_in_file == 0,
    {
        self.file_index = self.file_index + 1;
        self.rows_in_file = 0;
    }
}

/// No file grows past its limit: starting from a file with fewer rows than the limit,
/// writing a row and moving on when the file is full leaves the current file with
/// fewer rows than the limit again.
pub proof fn lemma_split_keeps_files_under_limit(rows: int, m: int, full: bool, rows_after: int)
    requires
        0 <= rows < m,
        full == (rows + 1 >= m),
        rows_after == (if full { 0 } else { rows + 1 }),
    ensures
        0 <= rows_after < m,
{
}

/// The encoding of joined texts is the joined encodings.
proof fn lemma_encode_concat(a: Seq<char>, b: Seq<char>)
    ensures
        encode_utf8(a + b) == encode_utf8(a) + encode_utf8(b),
    decreases a.len(),
{
    if a.len() == 0 {
        assert(a + b =~= b);
    } else {
        lemma_encode_concat(a.drop_first(), b);
        assert((a + b).drop_first() =~= a.drop_first() + b);
        assert((a + b)[0] == a[0]);
    }
}

/// An ASCII character is encoded as its own byte.
proof fn lemma_encode_ascii(c: char)
    requires
        (c as u32) < 128,
    ensures
        encode_utf8(seq![c]) == seq![c as u32 as u8],
{
    let x = c as u32;
    assert((x & 0x7F) == x) by (bit_vector)
        requires
            x < 128,
    ;
    assert(seq![c].drop_first() =~= Seq::<char>::empty());
    assert(encode_utf8(Seq::<char>::empty()) =~= Seq::<u8>::empty());
    assert(encode_scalar(x) == seq![(x & 0x7F) as u8]);
    assert(seq![c][0] as u32 == x);
    assert(encode_utf8(seq![c]) == encode_scalar(x) + encode_utf8(seq![c].drop_first()));
    assert(encode_utf8(seq![c]) =~= seq![x as u8]);
}

/// The decimal digits of a number are encoded as one ASCII digit byte each.
proof fn lemma_digits_encoded(n: nat)
    ensures
        encode_utf8(digits(n)).len() >= 1,
        forall|i: int| 0 <= i < encode_utf8(digits(n)).len() ==> #[trigger] is_ascii_digit(encode_utf8(digits(n))[i]),
    decreases n,
{
    if n < 10 {
        lemma_encode_ascii(digit_char(n as int));
    } else {
        lemma_digits_encoded(n / 10);
        let c = digit_char((n % 10) as int);
        lemma_encode_ascii(c);
        assert(digits(n / 10).push(c) =~= digits(n / 10) + seq![c]);
        lemma_encode_concat(digits(n / 10), seq![c]);
    }
}

/// Every file the splitter names is one that the stale-file cleanup recognizes: for
/// every stem, file number and extension, the bytes of `{stem}_{index}.{ext}` are a split
/// file name of that stem and extension.
pub proof fn lemma_split_names_recognized(stem: Seq<char>, index: nat, ext: Seq<char>)
    ensures
        is_split_name_bytes(
            encode_utf8(split_file_name_text(stem, index as int, ext)),
            encode_utf8(stem),
            encode_utf8(ext),
        ),
{
    reveal_strlit("_");
    reveal_strlit(".");
    let us = "_"@;
    let dot = "."@;
    let dg = decimal(index as int);
    assert(dg == digits(index));
    lemma_encode_ascii('_');
    lemma_encode_ascii('.');
    assert(us =~= seq!['_']);
    assert(dot =~= seq!['.']);
    lemma_digits_encoded(index);
    lemma_encode_concat(stem, us);
    lemma_encode_concat(stem + us, dg);
    lemma_encode_concat(stem + us + dg, dot);
    lemma_encode_concat(stem + us + dg + dot, ext);
    let es = encode_utf8(stem);
    let ed = encode_utf8(dg);
    let ex = encode_utf8(ext);
    let name = encode_utf8(split_file_name_text(stem, index as int, ext));
    assert(name =~= es + seq![95u8] + ed + seq![46u8] + ex);
    let p = es.len() + 1;
    let q = ex.len() + 1;
    assert(name.take(es.len() as int) =~= es);
    assert(name[es.len() as int] == 95u8);
    assert(name[name.len() - q] == 46u8);
    assert(name.skip(name.len() - ex.len()) =~= ex);
    assert forall|i: int| p <= i < name.len() - q implies #[trigger] is_ascii_digit(name[i]) by {
        assert(name[i] == ed[i - p]);
    }
}

} // verus!
