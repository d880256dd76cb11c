//! Regular expressions, as the `regex` crate compiles and runs them.

use vstd::prelude::*;


verus! {

/// A compiled regular expression of the `regex` crate.
#[verifier::external_type_specification]
#[verifier::external_body]
pub struct ExRegex(regex::Regex);

/// What `regex::Regex::new` gives for a pattern: `Ok` where it compiles,
/// else the text that the compile error displays.
pub uninterp spec fn regex_new(pattern: Seq<char>) -> Result<(), Seq<char>>;

/// The matches that `regex::Regex::captures_iter` yields for a compiled
/// pattern over a text, each as the list of its capture groups (group 0
/// first); a group that took no part in the match is `None`.
pub uninterp spec fn regex_captures(pattern: Seq<char>, text: Seq<char>) -> Seq<Seq<Option<Seq<char>>>>;

/// The pieces that `regex::Regex::split` yields for a compiled pattern over
/// a text: the parts of the text between matches, in order.
pub uninterp spec fn regex_split(pattern: Seq<char>, text: Seq<char>) -> Seq<Seq<char>>;

/// A regular expression compiled from the pattern that it keeps.
pub struct CompiledRegex {
    re: regex::Regex,
    source: String,
}

impl View for CompiledRegex {
    type V = Seq<char>;

    /// The pattern that the expression was compiled from.
    closed spec fn view(&self) -> Seq<char> {
        self.source@
    }
}

/// Compiles a pattern with `regex::Regex::new`.
///
/// Claims of the outside call: it succeeds or fails as `regex_new` names it,
/// and a failure carries the text that the error displays.
#[verifier::external_body]
pub fn compile_regex(pattern: &str) -> (r: Result<CompiledRegex, String>)
    ensures
        match r {
            Ok(c) => regex_new(pattern@) == Ok::<(), Seq<char>>(()) && c@ == pattern@,
            Err(msg) => regex_new(pattern@) == Err::<(), Seq<char>>(msg@),
        },
{
    match regex::Regex::new(pattern) {
        Ok(re) => Ok(CompiledRegex { re, source: pattern.to_string() }),
        Err(e) => Err(e.to_string()),
    }
}

/// All matches of a compiled expression in a text, with their capture
/// groups (`regex::Regex::captures_iter`).
///
/// Claims of the outside call: the result is `regex_captures` of the
/// pattern and the text; every match has at least group 0, and group 0 took
/// part in the match (the `regex` documentation promises both).
#[verifier::external_body]
pub fn captures_all(re: &CompiledRegex, text: &str) -> (r: Vec<Vec<Option<String>>>)
    ensures
        r@.len() == regex_captures(re@, text@).len(),
        forall|i: int| 0 <= i < r@.len() ==> {
            let groups = #[trigger] r@[i];
            &&& groups@.len() == regex_captures(re@, text@)[i].len()
            &&& groups@.len() >= 1
            &&& groups@[0] is Some
            &&& forall|g: int| 0 <= g < groups@.len() ==> match #[trigger] groups@[g] {
                Some(s) => regex_captures(re@, text@)[i][g] == Some(s@),
                None => regex_captures(re@, text@)[i][g] is None,
            }
        },
{
    re.re.captures_iter(text).map(|caps| caps.iter().map(|m| m.map(|m| m.as_str().to_string())).collect()).collect()
}

/// The parts of a text between the matches of a compiled expression
/// (`regex::Regex::split`).
///
/// Claim of the outside call: the result is `regex_split` of the pattern
/// and the text.
#[verifier::external_body]
pub fn split_all(re: &CompiledRegex, text: &str) -> (r: Vec<String>)
    ensures
        r@.len() == regex_split(re@, text@).len(),
        forall|i: int| 0 <= i < r@.len() ==> (#[trigger] r@[i])@ == regex_split(re@, text@)[i],
{
    re.re.split(text).map(|piece| piece.to_string()).collect()
}

} // verus!
