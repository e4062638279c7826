//! The conversion pipeline: try a prioritized registry of compiled formats
//! against one line, parse the first match into an absolute instant
//! (reading the embedded offset where the format carries one, assuming UTC
//! otherwise), re-render the instant in the destination timezone with the
//! same specifier, and splice the result back over the matched span only.

use vstd::prelude::*;
use crate::format::Format;
use crate::rx::regex_ok;
use crate::rx::regex_split;
use crate::text::concat3;
use crate::token::expand_s;
use crate::token::has_tz_s;
use crate::zone::diag;
use crate::zone::parse_aware;
use crate::zone::parse_aware_s;
use crate::zone::parse_naive_utc;
use crate::zone::parse_naive_utc_s;
use crate::zone::render_in_local;
use crate::zone::render_in_zone;
use crate::zone::render_s;
use crate::zone::timezone_exists;
use crate::zone::tz_valid;

verus! {

/// The raw specifiers of a format list, in order.
pub open spec fn fmts_of(formats: Seq<Format>) -> Seq<Seq<char>> {
    formats.map(|i: int, f: Format| f.spec_fmt())
}

/// The fixed, prioritized list of auto-detected formats: explicit-offset
/// ISO variants first, then web-server log conventions, then bare
/// local-time formats last, so that a match carrying its own offset is
/// preferred where two shapes could overlap.
pub open spec fn default_formats_s() -> Seq<Seq<char>> {
    seq![
        "%Y-%m-%dT%H:%M:%S%z"@,
        "%Y-%m-%d %H:%M:%S%z"@,
        "%Y-%m-%dT%H:%M:%S %z"@,
        "%Y-%m-%d %H:%M:%S %z"@,
        "%d/%b/%Y:%H:%M:%S %z"@,
        "%d/%b/%Y:%H:%M:%S%.3f %z"@,
        "%d/%b/%Y:%H:%M:%S"@,
        "%a, %d %b %Y %H:%M:%S %z"@,
        "%Y-%m-%dT%H:%M:%SZ"@,
        "%Y-%m-%dT%H:%M:%S"@,
        "%Y-%m-%d %H:%M:%S"@,
    ]
}

/// Index of the first format in `fmts` whose recognizer finds a match in
/// `line`, or `None` where none does.
pub open spec fn sel_format(fmts: Seq<Seq<char>>, line: Seq<char>) -> Option<int>
    decreases fmts.len(),
{
    if fmts.len() == 0 {
        None
    } else if regex_split(expand_s(fmts[0]), line) is Some {
        Some(0)
    } else {
        match sel_format(fmts.drop_first(), line) {
            Some(i) => Some(i + 1),
            None => None,
        }
    }
}

/// Idempotence on unmatched input: no format is selected for a line exactly
/// when every registered format's recognizer fails on it — and the pipeline
/// then returns the line unchanged (see the contracts of `Converter::convert`
/// and `run_pipeline`).
pub proof fn lemma_no_match(fmts: Seq<Seq<char>>, line: Seq<char>)
    ensures
        (sel_format(fmts, line) is None) <==> (forall|j: int|
            0 <= j < fmts.len() ==> regex_split(expand_s(#[trigger] fmts[j]), line) is None),
    decreases fmts.len(),
{
    if fmts.len() == 0 {
    } else {
        let tail = fmts.drop_first();
        lemma_no_match(tail, line);
        if regex_split(expand_s(fmts[0]), line) is Some {
            assert(!(regex_split(expand_s(fmts[0]), line) is None));
        } else {
            assert forall|j: int|
                0 <= j < fmts.len() && (forall|t: int|
                    0 <= t < tail.len() ==> regex_split(
                        expand_s(#[trigger] tail[t]),
                        line,
                    ) is None) implies regex_split(expand_s(#[trigger] fmts[j]), line) is None by {
                if j > 0 {
                    assert(tail[j - 1] == fmts[j]);
                }
            }
            assert forall|t: int|
                0 <= t < tail.len() && (forall|j: int|
                    0 <= j < fmts.len() ==> regex_split(
                        expand_s(#[trigger] fmts[j]),
                        line,
                    ) is None) implies regex_split(expand_s(#[trigger] tail[t]), line) is None by {
                assert(tail[t] == fmts[t + 1]);
            }
        }
    }
}

/// The selected format is the first matching one: it matches, and every
/// format registered before it fails on the line.
pub proof fn lemma_selected_is_first(fmts: Seq<Seq<char>>, line: Seq<char>)
    ensures
        sel_format(fmts, line) matches Some(i) ==> 0 <= i < fmts.len() && regex_split(
            expand_s(fmts[i]),
            line,
        ) is Some && (forall|j: int|
            0 <= j < i ==> regex_split(expand_s(#[trigger] fmts[j]), line) is None),
    decreases fmts.len(),
{
    if fmts.len() == 0 {
    } else if regex_split(expand_s(fmts[0]), line) is Some {
    } else {
        let tail = fmts.drop_first();
        lemma_selected_is_first(tail, line);
        match sel_format(tail, line) {
            Some(t) => {
                assert(sel_format(fmts, line) == Some(t + 1));
                assert(fmts[t + 1] == tail[t]);
                assert forall|j: int| 0 <= j < t + 1 implies regex_split(
                    expand_s(#[trigger] fmts[j]),
                    line,
                ) is None by {
                    if j > 0 {
                        assert(fmts[j] == tail[j - 1]);
                    }
                }
            },
            None => {},
        }
    }
}

/// The first matching index is the selected one.
pub proof fn lemma_first_is_selected(fmts: Seq<Seq<char>>, line: Seq<char>, i: int)
    requires
        0 <= i < fmts.len(),
        regex_split(expand_s(fmts[i]), line) is Some,
        forall|j: int| 0 <= j < i ==> regex_split(expand_s(#[trigger] fmts[j]), line) is None,
    ensures
        sel_format(fmts, line) == Some(i),
    decreases fmts.len(),
{
    if i == 0 {
    } else {
        let tail = fmts.drop_first();
        assert(tail[i - 1] == fmts[i]);
        assert forall|j: int| 0 <= j < i - 1 implies regex_split(
            expand_s(#[trigger] tail[j]),
            line,
        ) is None by {
            assert(tail[j] == fmts[j + 1]);
        }
        lemma_first_is_selected(tail, line, i - 1);
    }
}

/// Priority determinism: where two registered formats both structurally
/// match a line, the one earlier in the fixed order decides — the selected
/// index never lies past it.
pub proof fn lemma_priority_determinism(fmts: Seq<Seq<char>>, line: Seq<char>, i: int, j: int)
    requires
        0 <= i < j < fmts.len(),
        regex_split(expand_s(fmts[i]), line) is Some,
        regex_split(expand_s(fmts[j]), line) is Some,
    ensures
        sel_format(fmts, line) matches Some(k) && k <= i < j,
{
    lemma_no_match(fmts, line);
    lemma_selected_is_first(fmts, line);
    match sel_format(fmts, line) {
        Some(k) => {
            if k > i {
                assert(regex_split(expand_s(fmts[i]), line) is None);
            }
        },
        None => {},
    }
}

/// The parse strategy for a matched substring: a format carrying a
/// timezone token reads the offset from the text itself; a naive format —
/// or a parser that always assumes UTC — reads the value as a UTC wall
/// clock.
pub open spec fn instant_for(fmt: Seq<char>, matched: Seq<char>, assume_utc: bool) -> Option<
    (int, int),
> {
    if !assume_utc && has_tz_s(fmt) {
        parse_aware_s(matched, fmt)
    } else {
        parse_naive_utc_s(matched, fmt)
    }
}

/// The pipeline's outcome for one line under an explicit destination
/// timezone: the first matching format's span, parsed by that format's
/// strategy, rendered in the zone with the same specifier, and spliced
/// back in place; the line itself where nothing matches, where the matched
/// text cannot be interpreted, or where rendering fails.
pub open spec fn outcome_with(
    fmts: Seq<Seq<char>>,
    zone: Seq<char>,
    line: Seq<char>,
    assume_utc: bool,
) -> Seq<char> {
    match sel_format(fmts, line) {
        None => line,
        Some(i) => {
            let sp = regex_split(expand_s(fmts[i]), line)->Some_0;
            match instant_for(fmts[i], sp.1, assume_utc) {
                None => line,
                Some(inst) => match render_s(inst.0, inst.1, zone, fmts[i]) {
                    None => line,
                    Some(t) => sp.0 + t + sp.2,
                },
            }
        },
    }
}

/// Exhibits the witness for the surrounding-text clause of the pipeline:
/// an output of the form prefix + middle + suffix around the match of the
/// selected format.
proof fn lemma_split_witness(
    fmts: Seq<Seq<char>>,
    line: Seq<char>,
    i: int,
    out: Seq<char>,
    mid: Seq<char>,
)
    requires
        0 <= i < fmts.len(),
        regex_split(expand_s(fmts[i]), line) is Some,
        out == regex_split(expand_s(fmts[i]), line)->Some_0.0 + mid + regex_split(
            expand_s(fmts[i]),
            line,
        )->Some_0.2,
    ensures
        exists|m: Seq<char>|
            out == regex_split(expand_s(fmts[i]), line)->Some_0.0 + m + regex_split(
                expand_s(fmts[i]),
                line,
            )->Some_0.2,
{
}

/// One pass of the detect/parse/convert/substitute pipeline over a single
/// line.  With an explicit timezone the outcome is pinned exactly; with the
/// local timezone only the shape is: everything outside the matched span is
/// kept, and an unmatched or unparsable line comes back unchanged.
pub(crate) fn run_pipeline(
    formats: &Vec<Format>,
    timezone: Option<&str>,
    assume_utc: bool,
    input: &str,
) -> (r: String)
    ensures
        timezone matches Some(z) ==> r@ == outcome_with(
            fmts_of(formats@),
            z@,
            input@,
            assume_utc,
        ),
        sel_format(fmts_of(formats@), input@) is None ==> r@ == input@,
        sel_format(fmts_of(formats@), input@) matches Some(i) && instant_for(
            fmts_of(formats@)[i],
            regex_split(expand_s(fmts_of(formats@)[i]), input@)->Some_0.1,
            assume_utc,
        ) is None ==> r@ == input@,
        sel_format(fmts_of(formats@), input@) matches Some(i) ==> exists|mid: Seq<char>|
            r@ == regex_split(expand_s(fmts_of(formats@)[i]), input@)->Some_0.0 + mid
                + regex_split(expand_s(fmts_of(formats@)[i]), input@)->Some_0.2,
{
    let ghost gf = fmts_of(formats@);
    let n = formats.len();
    let mut k: usize = 0;
    while k < n
        invariant
            k <= n,
            n == formats@.len(),
            gf == fmts_of(formats@),
            gf.len() == n,
            forall|j: int| 0 <= j < k ==> regex_split(expand_s(#[trigger] gf[j]), input@) is None,
        decreases n - k,
    {
        let f = &formats[k];
        assert(f.spec_fmt() == gf[k as int]);
        match f.find(input) {
            Some(t) => {
                proof {
                    lemma_first_is_selected(gf, input@, k as int);
                }
                let aware = f.is_timezone_aware();
                let parsed = if assume_utc || !aware {
                    parse_naive_utc(t.1.as_str(), f.fmt())
                } else {
                    parse_aware(t.1.as_str(), f.fmt())
                };
                match parsed {
                    Ok(inst) => {
                        let rendered = match timezone {
                            Some(z) => render_in_zone(inst.0, inst.1, z, f.fmt()),
                            None => render_in_local(inst.0, inst.1, f.fmt()),
                        };
                        match rendered {
                            Some(newtext) => {
                                let out = concat3(t.0.as_str(), newtext.as_str(), t.2.as_str());
                                assert(out@ == t.0@ + newtext@ + t.2@);
                                return out;
                            },
                            None => {
                                proof {
                                    lemma_split_witness(gf, input@, k as int, input@, t.1@);
                                }
                                return input.to_owned();
                            },
                        }
                    },
                    Err(e) => {
                        if aware {
                            diag("error parsing the timezone-aware timestamp", e.as_str());
                        } else {
                            diag("error parsing the timestamp as UTC", e.as_str());
                        }
                        proof {
                            lemma_split_witness(gf, input@, k as int, input@, t.1@);
                        }
                        return input.to_owned();
                    },
                }
            },
            None => {
                k = k + 1;
            },
        }
    }
    proof {
        lemma_no_match(gf, input@);
    }
    input.to_owned()
}

/// Compiles one specifier and appends it; reports whether its expansion is
/// a valid pattern.
pub(crate) fn push_format(v: &mut Vec<Format>, fmt: &str) -> (ok: bool)
    ensures
        ok ==> final(v)@.len() == old(v)@.len() + 1 && final(v)@ == old(v)@.push(final(v)@.last())
            && final(v)@.last().spec_fmt() == fmt@ && regex_ok(expand_s(fmt@)),
        !ok ==> final(v)@ == old(v)@ && !regex_ok(expand_s(fmt@)),
{
    match Format::new(fmt) {
        Some(f) => {
            v.push(f);
            true
        },
        None => false,
    }
}

/// Compiles the fixed default registry, in its priority order.  `None`
/// exactly where some default's expansion is not a valid pattern.
fn default_formats() -> (r: Option<Vec<Format>>)
    ensures
        (r is Some) <==> (forall|j: int|
            0 <= j < default_formats_s().len() ==> regex_ok(
                expand_s(#[trigger] default_formats_s()[j]),
            )),
        r matches Some(v) ==> fmts_of(v@) == default_formats_s(),
{
    let mut v: Vec<Format> = Vec::new();
    if !push_format(&mut v, "%Y-%m-%dT%H:%M:%S%z") {
        assert(!regex_ok(expand_s(default_formats_s()[0])));
        return None;
    }
    if !push_format(&mut v, "%Y-%m-%d %H:%M:%S%z") {
        assert(!regex_ok(expand_s(default_formats_s()[1])));
        return None;
    }
    if !push_format(&mut v, "%Y-%m-%dT%H:%M:%S %z") {
        assert(!regex_ok(expand_s(default_formats_s()[2])));
        return None;
    }
    if !push_format(&mut v, "%Y-%m-%d %H:%M:%S %z") {
        assert(!regex_ok(expand_s(default_formats_s()[3])));
        return None;
    }
    if !push_format(&mut v, "%d/%b/%Y:%H:%M:%S %z") {
        assert(!regex_ok(expand_s(default_formats_s()[4])));
        return None;
    }
    if !push_format(&mut v, "%d/%b/%Y:%H:%M:%S%.3f %z") {
        assert(!regex_ok(expand_s(default_formats_s()[5])));
        return None;
    }
    if !push_format(&mut v, "%d/%b/%Y:%H:%M:%S") {
        assert(!regex_ok(expand_s(default_formats_s()[6])));
        return None;
    }
    if !push_format(&mut v, "%a, %d %b %Y %H:%M:%S %z") {
        assert(!regex_ok(expand_s(default_formats_s()[7])));
        return None;
    }
    if !push_format(&mut v, "%Y-%m-%dT%H:%M:%SZ") {
        assert(!regex_ok(expand_s(default_formats_s()[8])));
        return None;
    }
    if !push_format(&mut v, "%Y-%m-%dT%H:%M:%S") {
        assert(!regex_ok(expand_s(default_formats_s()[9])));
        return None;
    }
    if !push_format(&mut v, "%Y-%m-%d %H:%M:%S") {
        assert(!regex_ok(expand_s(default_formats_s()[10])));
        return None;
    }
    proof {
        assert(fmts_of(v@) =~= default_formats_s());
        assert forall|j: int| 0 <= j < default_formats_s().len() implies regex_ok(
            expand_s(#[trigger] default_formats_s()[j]),
        ) by {
            assert(default_formats_s()[j] == fmts_of(v@)[j]);
            assert(fmts_of(v@)[j] == v@[j].spec_fmt());
        }
    }
    Some(v)
}

/// Converts the timestamps of single lines into a target timezone.
/// `formats` is the registry tried in priority order; `timezone` is the
/// explicit destination, or `None` for the machine's local timezone.
pub struct Converter {
    formats: Vec<Format>,
    timezone: Option<String>,
}

impl Converter {
    /// The raw specifiers of the registered formats, in priority order.
    pub closed spec fn spec_formats(&self) -> Seq<Seq<char>> {
        fmts_of(self.formats@)
    }

    /// The explicit destination timezone name, or `None` where the local
    /// timezone is used.
    pub closed spec fn spec_timezone(&self) -> Option<Seq<char>> {
        match self.timezone {
            Some(s) => Some(s@),
            None => None,
        }
    }

    /// Builds a converter.  An absent `fmt` selects the default registry;
    /// an absent or unknown `tz_str` selects the local timezone (an unknown
    /// one also emits a diagnostic).  The only error is a custom or default
    /// format whose expansion is not a valid pattern.
    pub fn new(tz_str: Option<&str>, fmt: Option<&str>) -> (r: Result<Converter, String>)
        ensures
            r matches Ok(c) ==> c.spec_formats() == (match fmt {
                Some(f) => seq![f@],
                None => default_formats_s(),
            }),
            r matches Ok(c) ==> c.spec_timezone() == (match tz_str {
                Some(t) => if tz_valid(t@) {
                    Some(t@)
                } else {
                    None
                },
                None => None::<Seq<char>>,
            }),
            (r is Ok) <==> (match fmt {
                Some(f) => regex_ok(expand_s(f@)),
                None => forall|j: int|
                    0 <= j < default_formats_s().len() ==> regex_ok(
                        expand_s(#[trigger] default_formats_s()[j]),
                    ),
            }),
    {
        let timezone: Option<String> = match tz_str {
            Some(t) => {
                if timezone_exists(t) {
                    Some(t.to_owned())
                } else {
                    diag("using the local timezone as the given timezone is not valid", t);
                    None
                }
            },
            None => None,
        };
        let formats: Vec<Format> = match fmt {
            Some(f) => {
                match Format::new(f) {
                    Some(compiled) => {
                        let mut v: Vec<Format> = Vec::new();
                        v.push(compiled);
                        proof {
                            assert(fmts_of(v@) =~= seq![f@]);
                        }
                        v
                    },
                    None => {
                        return Err("invalid custom format".to_owned());
                    },
                }
            },
            None => {
                match default_formats() {
                    Some(v) => v,
                    None => {
                        return Err("invalid default format".to_owned());
                    },
                }
            },
        };
        Ok(Converter { formats, timezone })
    }

    /// How many formats the registry holds.
    pub fn num_formats(&self) -> (n: usize)
        ensures
            n == self.spec_formats().len(),
    {
        self.formats.len()
    }

    /// Converts the first recognized timestamp in `input` into the
    /// configured destination timezone, splicing it over the matched span
    /// only.  The line comes back unchanged where no format matches, where
    /// the matched text cannot be interpreted as a timestamp, or where
    /// rendering fails; with an explicit timezone the outcome is pinned
    /// exactly by `outcome_with`.
    pub fn convert(&self, input: &str) -> (r: String)
        ensures
            self.spec_timezone() matches Some(z) ==> r@ == outcome_with(
                self.spec_formats(),
                z,
                input@,
                false,
            ),
            sel_format(self.spec_formats(), input@) is None ==> r@ == input@,
            sel_format(self.spec_formats(), input@) matches Some(i) && instant_for(
                self.spec_formats()[i],
                regex_split(expand_s(self.spec_formats()[i]), input@)->Some_0.1,
                false,
            ) is None ==> r@ == input@,
            sel_format(self.spec_formats(), input@) matches Some(i) ==> exists|mid: Seq<char>|
                r@ == regex_split(expand_s(self.spec_formats()[i]), input@)->Some_0.0 + mid
                    + regex_split(expand_s(self.spec_formats()[i]), input@)->Some_0.2,
    {
        match &self.timezone {
            Some(z) => run_pipeline(&self.formats, Some(z.as_str()), false, input),
            None => run_pipeline(&self.formats, None, false, input),
        }
    }
}

} // verus!
