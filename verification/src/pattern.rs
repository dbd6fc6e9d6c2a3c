//! Compiled regular expressions, behind trusted items of the `regex` crate.

use vstd::prelude::*;

verus! {

/// Whether `regex::Regex::new` accepts `pattern` (a valid pattern that fits in
/// the default size limit).  Determined by the pattern alone.
pub uninterp spec fn regex_compiles(pattern: Seq<char>) -> bool;

/// What `regex::Regex::captures` reports for `pattern` on `haystack`: `None`
/// when there is no match, otherwise the text of each capture group in order
/// (group 0 is the overall leftmost-first match), `None` for a group that did
/// not take part in the match.  Determined by the pattern and the haystack.
pub uninterp spec fn regex_captures(pattern: Seq<char>, haystack: Seq<char>) -> Option<
    Seq<Option<Seq<char>>>,
>;

/// The outside type `regex::Regex`, opaque to verification.
#[verifier::external_type_specification]
#[verifier::external_body]
pub struct ExRegex(regex::Regex);

/// A regular expression together with the pattern text it was compiled from.
///
/// Values are only made by [`Pattern::compile`], so `regex` is always the
/// compilation of `source`.
pub struct Pattern {
    source: String,
    regex: regex::Regex,
}

/// The capture groups of one match, by view: what [`Pattern::captures`]
/// returns, seen as plain sequences.
pub open spec fn captures_view(c: &Option<Vec<Option<String>>>) -> Option<Seq<Option<Seq<char>>>> {
    c.deep_view()
}

impl Pattern {
    /// The pattern text this regular expression was compiled from.
    pub closed spec fn source(&self) -> Seq<char> {
        self.source@
    }

    /// Compiles `source` with `regex::Regex::new`.
    ///
    /// Trusted: `Regex::new` returns `Ok` exactly when the pattern compiles,
    /// which is the named result `regex_compiles`; on success the pattern text
    /// is kept beside the compiled regex.
    #[verifier::external_body]
    pub(crate) fn compile(source: &str) -> (res: Option<Pattern>)
        ensures
            res is Some <==> regex_compiles(source@),
            res matches Some(p) ==> p.source() == source@,
    {
        match regex::Regex::new(source) {
            Ok(regex) => Some(Pattern { source: source.to_string(), regex }),
            Err(_) => None,
        }
    }

    /// Runs `regex::Regex::captures` on `haystack` and copies out the text of
    /// every capture group (`Captures::iter`, `Match::as_str`).
    ///
    /// Trusted: the result is the named result `regex_captures` of this
    /// pattern's source and the haystack; as the `regex` documentation states,
    /// a match always has group 0, the overall match.
    #[verifier::external_body]
    pub(crate) fn captures(&self, haystack: &str) -> (res: Option<Vec<Option<String>>>)
        ensures
            captures_view(&res) == regex_captures(self.source(), haystack@),
            res matches Some(groups) ==> groups@.len() >= 1 && groups@[0] is Some,
    {
        self.regex.captures(haystack).map(
            |caps| caps.iter().map(|m| m.map(|m| m.as_str().to_string())).collect(),
        )
    }
}

} // verus!
