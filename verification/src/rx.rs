//! The boundary to the `regex` crate: the compiled recognizer type, and
//! names for what compiling and searching return.  Everything the rest of
//! the crate knows about a recognizer is stated here over the pattern text
//! it was compiled from.

use vstd::prelude::*;

verus! {

/// The `regex` crate's compiled regular expression, opaque to verification.
#[verifier::external_type_specification]
#[verifier::external_body]
pub struct ExRegex(regex::Regex);

/// The pattern text a compiled `regex::Regex` holds (what `Regex::as_str`
/// returns: the string it was built from).
pub uninterp spec fn regex_pattern(re: regex::Regex) -> Seq<char>;

/// Whether `regex::Regex::new` accepts the pattern text as a syntactically
/// valid pattern.
pub uninterp spec fn regex_ok(pattern: Seq<char>) -> bool;

/// The leftmost match of the pattern in `text`, as the split
/// (prefix, matched, suffix) of `text` around the matched span, or `None`
/// where the pattern matches nowhere in `text`.  `regex::Regex::find` is a
/// function of the pattern and the haystack alone, so the split is too.
pub uninterp spec fn regex_split(pattern: Seq<char>, text: Seq<char>) -> Option<
    (Seq<char>, Seq<char>, Seq<char>),
>;

/// Relies on `regex::Regex::new`: it compiles exactly the syntactically
/// valid patterns, and the compiled value keeps the pattern text it was
/// built from.
#[verifier::external_body]
pub fn compile_pattern(pattern: &str) -> (r: Option<regex::Regex>)
    ensures
        (r is Some) <==> regex_ok(pattern@),
        r matches Some(re) ==> regex_pattern(re) == pattern@,
{
    regex::Regex::new(pattern).ok()
}

/// Relies on `regex::Regex::find`: it returns the leftmost match, a span
/// lying inside the haystack, so the three returned pieces concatenate
/// back to `text` exactly.
#[verifier::external_body]
pub fn find_split(re: &regex::Regex, text: &str) -> (r: Option<(String, String, String)>)
    ensures
        (r is Some) <==> regex_split(regex_pattern(*re), text@) is Some,
        r matches Some(t) ==> regex_split(regex_pattern(*re), text@) == Some((t.0@, t.1@, t.2@))
            && text@ == t.0@ + t.1@ + t.2@,
{
    match re.find(text) {
        Some(m) => Some((
            text[..m.start()].to_string(),
            m.as_str().to_string(),
            text[m.end()..].to_string(),
        )),
        None => None,
    }
}

} // verus!
