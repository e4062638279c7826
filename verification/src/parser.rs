//! The closed set of parser variants behind one capability interface: an
//! auto-detecting parser over a fixed list of common formats, and a parser
//! for one known format.  Both read every matched timestamp as a UTC wall
//! clock and render it in a fixed target timezone.

use vstd::prelude::*;
use crate::converter::fmts_of;
use crate::converter::outcome_with;
use crate::converter::run_pipeline;
use crate::format::Format;
use crate::rx::regex_ok;
use crate::token::expand_s;
use crate::zone::timezone_exists;
use crate::zone::tz_valid;

verus! {

/// Capability interface of the line parsers: one call rewrites the
/// timestamp of one line.
pub trait Parser {
    fn parse(&self, s: &str) -> String;
}

/// The fixed formats the auto-detecting UTC parser recognizes, in the
/// order they are tried.
pub open spec fn supported_formats_s() -> Seq<Seq<char>> {
    seq![
        "%Y-%m-%d %H:%M:%S.%6f"@,
        "%d/%b/%Y:%H:%M:%S %z"@,
        "%Y-%m-%dT%H:%M:%S%:z"@,
        "%a, %d %b %Y %H:%M:%S %z"@,
    ]
}

/// Compiles the supported formats, in order.  `None` exactly where some
/// format's expansion is not a valid pattern.
fn supported_formats() -> (r: Option<Vec<Format>>)
    ensures
        (r is Some) <==> (forall|j: int|
            0 <= j < supported_formats_s().len() ==> regex_ok(
                expand_s(#[trigger] supported_formats_s()[j]),
            )),
        r matches Some(v) ==> fmts_of(v@) == supported_formats_s(),
{
    let mut v: Vec<Format> = Vec::new();
    if !crate::converter::push_format(&mut v, "%Y-%m-%d %H:%M:%S.%6f") {
        assert(!regex_ok(expand_s(supported_formats_s()[0])));
        return None;
    }
    if !crate::converter::push_format(&mut v, "%d/%b/%Y:%H:%M:%S %z") {
        assert(!regex_ok(expand_s(supported_formats_s()[1])));
        return None;
    }
    if !crate::converter::push_format(&mut v, "%Y-%m-%dT%H:%M:%S%:z") {
        assert(!regex_ok(expand_s(supported_formats_s()[2])));
        return None;
    }
    if !crate::converter::push_format(&mut v, "%a, %d %b %Y %H:%M:%S %z") {
        assert(!regex_ok(expand_s(supported_formats_s()[3])));
        return None;
    }
    proof {
        assert(fmts_of(v@) =~= supported_formats_s());
        assert forall|j: int| 0 <= j < supported_formats_s().len() implies regex_ok(
            expand_s(#[trigger] supported_formats_s()[j]),
        ) by {
            assert(supported_formats_s()[j] == fmts_of(v@)[j]);
            assert(fmts_of(v@)[j] == v@[j].spec_fmt());
        }
    }
    Some(v)
}

/// The auto-detecting parser: tries the supported formats in order, reads
/// the first match as a UTC wall clock, and renders it in the target
/// timezone.
pub struct UTCParser {
    target_tz: String,
    formats: Vec<Format>,
}

impl UTCParser {
    /// The raw specifiers this parser recognizes, in order.
    pub closed spec fn spec_formats(&self) -> Seq<Seq<char>> {
        fmts_of(self.formats@)
    }

    /// The target timezone name.
    pub closed spec fn spec_tz(&self) -> Seq<char> {
        self.target_tz@
    }

    /// Rewrites the first recognized timestamp of `s` into the target
    /// timezone, reading it as UTC; returns `s` unchanged where nothing
    /// matches or the match cannot be interpreted.
    pub fn convert_line(&self, s: &str) -> (r: String)
        ensures
            r@ == outcome_with(self.spec_formats(), self.spec_tz(), s@, true),
    {
        run_pipeline(&self.formats, Some(self.target_tz.as_str()), true, s)
    }
}

impl Parser for UTCParser {
    fn parse(&self, s: &str) -> String {
        self.convert_line(s)
    }
}

/// Creates the auto-detecting UTC parser.  `None` where the target
/// timezone is not a known IANA name or a supported format fails to
/// compile.
pub fn new_utcparser(target_tz: &str) -> (r: Option<UTCParser>)
    ensures
        (r is Some) <==> (tz_valid(target_tz@) && (forall|j: int|
            0 <= j < supported_formats_s().len() ==> regex_ok(
                expand_s(#[trigger] supported_formats_s()[j]),
            ))),
        r matches Some(p) ==> p.spec_formats() == supported_formats_s() && p.spec_tz()
            == target_tz@,
{
    if !timezone_exists(target_tz) {
        return None;
    }
    match supported_formats() {
        Some(v) => Some(UTCParser { target_tz: target_tz.to_owned(), formats: v }),
        None => None,
    }
}

/// The fixed-format parser: the timestamp layout is known beforehand, and
/// every match is read as a UTC wall clock.
pub struct FixedFormatUTCParser {
    target_tz: String,
    formats: Vec<Format>,
}

impl FixedFormatUTCParser {
    /// The raw specifiers this parser recognizes (a single one).
    pub closed spec fn spec_formats(&self) -> Seq<Seq<char>> {
        fmts_of(self.formats@)
    }

    /// The target timezone name.
    pub closed spec fn spec_tz(&self) -> Seq<char> {
        self.target_tz@
    }

    /// Rewrites the first substring of `s` matching the fixed format into
    /// the target timezone, reading it as UTC; returns `s` unchanged where
    /// nothing matches or the match cannot be interpreted.
    pub fn convert_line(&self, s: &str) -> (r: String)
        ensures
            r@ == outcome_with(self.spec_formats(), self.spec_tz(), s@, true),
    {
        run_pipeline(&self.formats, Some(self.target_tz.as_str()), true, s)
    }
}

impl Parser for FixedFormatUTCParser {
    fn parse(&self, s: &str) -> String {
        self.convert_line(s)
    }
}

/// Creates the fixed-format UTC parser.  `None` where the target timezone
/// is not a known IANA name or the format's expansion is not a valid
/// pattern.
pub fn new_fixedformatutcparser(target_tz: &str, format: &str) -> (r: Option<FixedFormatUTCParser>)
    ensures
        (r is Some) <==> (tz_valid(target_tz@) && regex_ok(expand_s(format@))),
        r matches Some(p) ==> p.spec_formats() == seq![format@] && p.spec_tz() == target_tz@,
{
    if !timezone_exists(target_tz) {
        return None;
    }
    let mut v: Vec<Format> = Vec::new();
    if !crate::converter::push_format(&mut v, format) {
        return None;
    }
    proof {
        assert(fmts_of(v@) =~= seq![format@]);
    }
    Some(FixedFormatUTCParser { target_tz: target_tz.to_owned(), formats: v })
}

} // verus!
