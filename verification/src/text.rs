//! Text pieces shared by the library: decimal numbers, debug lists, path text.
use std::path::PathBuf;
use vstd::prelude::*;

verus! {

/// The character of a decimal digit.
pub open spec fn digit_char(d: int) -> char
    recommends
        0 <= d < 10,
{
    (48 + d) as char
}

/// The decimal digits of a natural number, most significant first, without leading zeros.
pub open spec fn digits(n: nat) -> Seq<char>
    decreases n,
{
    if n < 10 {
        seq![digit_char(n as int)]
    } else {
        digits(n / 10).push(digit_char((n % 10) as int))
    }
}

/// The decimal text of an integer: its digits, after a `-` when it is negative.
pub open spec fn decimal(n: int) -> Seq<char> {
    if n < 0 {
        seq!['-'] + digits((-n) as nat)
    } else {
        digits(n as nat)
    }
}

/// `itoa::Buffer::format`: writes an integer as decimal text, with a leading `-`
/// for negative values and no leading zeros (as `to_string` would).
#[verifier::external_body]
pub(crate) fn decimal_text(n: i128) -> (s: String)
    ensures
        s@ == decimal(n as int),
{
    itoa::Buffer::new().format(n).to_owned()
}

/// The text that `{:?}` gives for a list of strings.
pub uninterp spec fn debug_text_of_strings(items: Seq<Seq<char>>) -> Seq<char>;

/// The views of a list of strings.
pub open spec fn string_views(v: Seq<String>) -> Seq<Seq<char>> {
    v.map_values(|s: String| s@)
}

/// `<Vec<String> as Debug>::fmt`: the list shown as `{:?}` shows it.
#[verifier::external_body]
pub(crate) fn debug_strings(v: &Vec<String>) -> (s: String)
    ensures
        s@ == debug_text_of_strings(string_views(v@)),
{
    format!("{v:?}")
}

/// `Path::display`: the text of a path, as `{}` shows it. The text depends on the
/// path's bytes, which Verus does not see, so nothing is stated of it.
#[verifier::external_body]
pub(crate) fn path_display(p: &PathBuf) -> (s: String) {
    p.display().to_string()
}

} // verus!
