//! A compiled regular expression together with the text it was compiled from.
use vstd::prelude::*;

verus! {

/// The `regex` crate's compiled expression.
#[verifier::external_type_specification]
#[verifier::external_body]
pub struct ExRegex(regex::Regex);

/// What `regex::Regex::new` gives for a pattern: `None` when the pattern compiles,
/// otherwise the text of the error it reports.
pub uninterp spec fn regex_compile_error(pattern: Seq<char>) -> Option<Seq<char>>;

/// What `regex::Regex::is_match` answers for an expression compiled from `pattern`
/// and a haystack `text`: whether the expression matches anywhere in it.
pub uninterp spec fn regex_matches(pattern: Seq<char>, text: Seq<char>) -> bool;

/// A compiled regular expression. Its fields are private: a value is only ever made
/// by [`Pattern::compile`], so the expression is always the one compiled from `source`.
#[derive(Debug)]
pub struct Pattern {
    source: String,
    re: regex::Regex,
}

impl Pattern {
    /// The text the expression was compiled from.
    pub closed spec fn source(self) -> Seq<char> {
        self.source@
    }

    /// `regex::Regex::new`: compiles `pattern`, or gives the text of the error the
    /// crate reports for it (its `Display`).
    #[verifier::external_body]
    pub(crate) fn compile(pattern: &str) -> (r: Result<Pattern, String>)
        ensures
            match r {
                Ok(p) => regex_compile_error(pattern@) is None && p.source() == pattern@,
                Err(msg) => regex_compile_error(pattern@) == Some(msg@),
            },
    {
        match regex::Regex::new(pattern) {
            Ok(re) => Ok(Pattern { source: pattern.to_owned(), re }),
            Err(e) => Err(e.to_string()),
        }
    }

    /// `regex::Regex::is_match`: whether the expression matches anywhere in `text`.
    #[verifier::external_body]
    pub(crate) fn is_match(&self, text: &str) -> (b: bool)
        ensures
            b == regex_matches(self.source(), text@),
    {
        self.re.is_match(text)
    }
}

} // verus!
