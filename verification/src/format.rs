//! One compiled format: the raw specifier together with the recognizer
//! compiled from its token expansion, and the timezone-awareness flag that
//! decides the parse strategy.

use vstd::prelude::*;
use crate::rx::compile_pattern;
use crate::rx::find_split;
use crate::rx::regex_ok;
use crate::rx::regex_pattern;
use crate::rx::regex_split;
use crate::token::expand;
use crate::token::expand_s;
use crate::token::format_has_timezone;
use crate::token::has_tz_s;

verus! {

/// A format specifier compiled into an exact-shape recognizer.  The
/// recognizer always holds the expansion of `fmt` under the token grammar,
/// and `timezone_aware` holds exactly when `fmt` carries a timezone token.
pub struct Format {
    fmt: String,
    re: regex::Regex,
    timezone_aware: bool,
}

impl Format {
    /// The raw format specifier this recognizer was compiled from.
    pub closed spec fn spec_fmt(&self) -> Seq<char> {
        self.fmt@
    }

    #[verifier::type_invariant]
    closed spec fn wf(&self) -> bool {
        &&& regex_pattern(self.re) == expand_s(self.fmt@)
        &&& regex_ok(expand_s(self.fmt@))
        &&& self.timezone_aware == has_tz_s(self.fmt@)
    }

    /// Compiles a format specifier.  `None` exactly where the specifier's
    /// expansion is not a valid pattern — a malformed custom format, the
    /// one fatal configuration error.
    pub fn new(fmt: &str) -> (r: Option<Format>)
        ensures
            (r is Some) <==> regex_ok(expand_s(fmt@)),
            r matches Some(f) ==> f.spec_fmt() == fmt@,
    {
        let pattern = expand(fmt);
        match compile_pattern(pattern.as_str()) {
            Some(re) => Some(
                Format { fmt: fmt.to_owned(), re, timezone_aware: format_has_timezone(fmt) },
            ),
            None => None,
        }
    }

    /// Whether the specifier carries a timezone token, so that the source
    /// zone is read from the matched text itself.
    pub fn is_timezone_aware(&self) -> (b: bool)
        ensures
            b == has_tz_s(self.spec_fmt()),
    {
        proof {
            use_type_invariant(self);
        }
        self.timezone_aware
    }

    /// The raw format specifier.
    pub fn fmt(&self) -> (r: &str)
        ensures
            r@ == self.spec_fmt(),
    {
        self.fmt.as_str()
    }

    /// The first substring of `input` matching this format's shape, as the
    /// split (prefix, matched, suffix) of `input` around it.
    pub fn find(&self, input: &str) -> (r: Option<(String, String, String)>)
        ensures
            (r is Some) <==> regex_split(expand_s(self.spec_fmt()), input@) is Some,
            r matches Some(t) ==> regex_split(expand_s(self.spec_fmt()), input@) == Some(
                (t.0@, t.1@, t.2@),
            ) && input@ == t.0@ + t.1@ + t.2@,
    {
        proof {
            use_type_invariant(self);
        }
        find_split(&self.re, input)
    }
}

} // verus!
