//! The token grammar and the format compiler.
//!
//! A format specifier is a short string of date/time tokens (`%Y`, `%H`, ...)
//! and literal punctuation.  Compiling a specifier substitutes every token
//! with the regular-expression fragment recognizing values of that token's
//! shape, in a fixed order in which no token's expansion can fall inside
//! another token's literal spelling.  A specifier is timezone-aware exactly
//! when it holds one of the offset/zone-name tokens.

use vstd::prelude::*;
use crate::text::chars_vec;
use crate::text::chars_to_string;

verus! {

/// Left-to-right, non-overlapping replacement of every occurrence of `pat`
/// by `rep` in `s`.  An empty pattern leaves `s` unchanged.
pub open spec fn replace_all_s(s: Seq<char>, pat: Seq<char>, rep: Seq<char>) -> Seq<char>
    decreases s.len(),
{
    if pat.len() == 0 || s.len() < pat.len() {
        s
    } else if s.subrange(0, pat.len() as int) == pat {
        rep + replace_all_s(s.skip(pat.len() as int), pat, rep)
    } else {
        seq![s[0]] + replace_all_s(s.skip(1), pat, rep)
    }
}

/// After a match of `pat` at position `i`, the rest of the replacement
/// starts `pat.len()` characters further on.
proof fn lemma_step_match(s: Seq<char>, pat: Seq<char>, rep: Seq<char>, i: int)
    requires
        pat.len() > 0,
        0 <= i,
        i + pat.len() <= s.len(),
        s.subrange(i, i + pat.len() as int) == pat,
    ensures
        replace_all_s(s.skip(i), pat, rep) == rep + replace_all_s(
            s.skip(i + pat.len() as int),
            pat,
            rep,
        ),
{
    let t = s.skip(i);
    assert(t.subrange(0, pat.len() as int) =~= s.subrange(i, i + pat.len() as int));
    assert(t.skip(pat.len() as int) =~= s.skip(i + pat.len() as int));
}

/// Where `pat` does not match at position `i`, the replacement keeps the
/// character there and moves on by one.
proof fn lemma_step_nomatch(s: Seq<char>, pat: Seq<char>, rep: Seq<char>, i: int)
    requires
        pat.len() > 0,
        0 <= i < s.len(),
        i + pat.len() <= s.len() ==> s.subrange(i, i + pat.len() as int) != pat,
    ensures
        replace_all_s(s.skip(i), pat, rep) == seq![s[i]] + replace_all_s(s.skip(i + 1), pat, rep),
{
    let t = s.skip(i);
    if t.len() < pat.len() {
        assert(t.skip(1) =~= s.skip(i + 1));
        assert(replace_all_s(s.skip(i + 1), pat, rep) == s.skip(i + 1));
        assert(t =~= seq![s[i]] + s.skip(i + 1));
    } else {
        assert(t.subrange(0, pat.len() as int) =~= s.subrange(i, i + pat.len() as int));
        assert(seq![t[0]] =~= seq![s[i]]);
        assert(t.skip(1) =~= s.skip(i + 1));
    }
}

/// Whether the characters of `pat` stand in `v` at position `i`.
fn matches_at(v: &Vec<char>, i: usize, pat: &Vec<char>) -> (r: bool)
    requires
        i + pat@.len() <= v@.len(),
    ensures
        r == (v@.subrange(i as int, i + pat@.len() as int) == pat@),
{
    let n = v.len();
    let mut k: usize = 0;
    while k < pat.len()
        invariant
            k <= pat@.len(),
            i + pat@.len() <= v@.len(),
            n == v@.len(),
            forall|j: int| 0 <= j < k ==> v@[i + j] == pat@[j],
        decreases pat@.len() - k,
    {
        assert(i + k < n);
        if v[i + k] != pat[k] {
            assert(v@.subrange(i as int, i + pat@.len() as int)[k as int] != pat@[k as int]);
            return false;
        }
        k = k + 1;
    }
    assert(v@.subrange(i as int, i + pat@.len() as int) =~= pat@);
    true
}

/// Replaces every occurrence of `pat` in `v` by `rep`, left to right and
/// without overlap.
pub fn replace_all(v: &Vec<char>, pat: &str, rep: &str) -> (r: Vec<char>)
    ensures
        r@ == replace_all_s(v@, pat@, rep@),
{
    let pv = chars_vec(pat);
    let rv = chars_vec(rep);
    let mut out: Vec<char> = Vec::new();
    let mut i: usize = 0;
    if pv.len() == 0 {
        while i < v.len()
            invariant
                i <= v@.len(),
                out@ == v@.subrange(0, i as int),
            decreases v@.len() - i,
        {
            out.push(v[i]);
            i = i + 1;
            assert(out@ =~= v@.subrange(0, i as int));
        }
        assert(out@ =~= v@);
        return out;
    }
    proof {
        assert(v@.skip(0) =~= v@);
        assert(out@ + replace_all_s(v@, pat@, rep@) =~= replace_all_s(v@, pat@, rep@));
    }
    while i < v.len()
        invariant
            i <= v@.len(),
            pv@ == pat@,
            rv@ == rep@,
            pat@.len() > 0,
            replace_all_s(v@, pat@, rep@) == out@ + replace_all_s(v@.skip(i as int), pat@, rep@),
        decreases v@.len() - i,
    {
        let ghost out_pre = out@;
        if pv.len() <= v.len() - i && matches_at(v, i, &pv) {
            proof {
                lemma_step_match(v@, pat@, rep@, i as int);
            }
            let mut k: usize = 0;
            while k < rv.len()
                invariant
                    k <= rv@.len(),
                    rv@ == rep@,
                    out@ == out_pre + rep@.subrange(0, k as int),
                decreases rv@.len() - k,
            {
                out.push(rv[k]);
                k = k + 1;
                assert(out@ =~= out_pre + rep@.subrange(0, k as int));
            }
            assert(out@ =~= out_pre + rep@);
            i = i + pv.len();
            assert(out@ + replace_all_s(v@.skip(i as int), pat@, rep@) =~= out_pre + (rep@
                + replace_all_s(v@.skip(i as int), pat@, rep@)));
        } else {
            proof {
                lemma_step_nomatch(v@, pat@, rep@, i as int);
            }
            out.push(v[i]);
            i = i + 1;
            assert(out@ + replace_all_s(v@.skip(i as int), pat@, rep@) =~= out_pre + (seq![
                v@[i - 1],
            ] + replace_all_s(v@.skip(i as int), pat@, rep@)));
        }
    }
    proof {
        assert(v@.skip(i as int) =~= Seq::<char>::empty());
        assert(out@ + replace_all_s(v@.skip(i as int), pat@, rep@) =~= out@);
    }
    out
}

/// The full token grammar, applied in order: every token of the format
/// language is substituted by the regular-expression fragment matching
/// values of exactly that token's shape and width.  More specific tokens
/// (`%.3f`) are spelled so that no earlier substitution can fall inside
/// them, and no fragment contains a `%`, so the order below is safe.
#[verifier::opaque]
pub open spec fn expand_s(s: Seq<char>) -> Seq<char> {
    // Date specifiers
    let s = replace_all_s(s, "%Y"@, "\\d{4}"@);
    let s = replace_all_s(s, "%C"@, "\\d{2}"@);
    let s = replace_all_s(s, "%y"@, "\\d{2}"@);
    let s = replace_all_s(s, "%m"@, "\\d{2}"@);
    let s = replace_all_s(s, "%b"@, "\\w{3}"@);
    let s = replace_all_s(s, "%B"@, "\\w+"@);
    let s = replace_all_s(s, "%h"@, "\\w{3}"@);
    let s = replace_all_s(s, "%d"@, "\\d{2}"@);
    let s = replace_all_s(s, "%e"@, "\\d+"@);
    let s = replace_all_s(s, "%a"@, "\\w{3}"@);
    let s = replace_all_s(s, "%A"@, "\\w+"@);
    let s = replace_all_s(s, "%w"@, "\\d"@);
    let s = replace_all_s(s, "%u"@, "\\d"@);
    let s = replace_all_s(s, "%U"@, "\\d{2}"@);
    let s = replace_all_s(s, "%W"@, "\\d{2}"@);
    let s = replace_all_s(s, "%G"@, "\\d{4}"@);
    let s = replace_all_s(s, "%g"@, "\\d{2}"@);
    let s = replace_all_s(s, "%V"@, "\\d{2}"@);
    let s = replace_all_s(s, "%j"@, "\\d{3}"@);
    let s = replace_all_s(s, "%D"@, "\\d{2}/\\d{2}/\\d{2}"@);
    let s = replace_all_s(s, "%x"@, "\\d{2}/\\d{2}/\\d{2}"@);
    let s = replace_all_s(s, "%F"@, "\\d{4}-\\d{2}-\\d{2}"@);
    let s = replace_all_s(s, "%v"@, "\\d{2}-\\w{3}-\\d{4}"@);
    // Time specifiers
    let s = replace_all_s(s, "%H"@, "\\d{2}"@);
    let s = replace_all_s(s, "%k"@, "\\d+"@);
    let s = replace_all_s(s, "%I"@, "\\d{2}"@);
    let s = replace_all_s(s, "%l"@, "\\d{1,2}"@);
    let s = replace_all_s(s, "%P"@, "[ap]m)"@);
    let s = replace_all_s(s, "%p"@, "[AP]M)"@);
    let s = replace_all_s(s, "%M"@, "\\d{2}"@);
    let s = replace_all_s(s, "%S"@, "\\d{2}"@);
    let s = replace_all_s(s, "%f"@, "\\d+"@);
    let s = replace_all_s(s, "%3f"@, "\\d{3}"@);
    let s = replace_all_s(s, "%6f"@, "\\d{6}"@);
    let s = replace_all_s(s, "%9f"@, "\\d{9}"@);
    let s = replace_all_s(s, "%.f"@, "\\.\\d+"@);
    let s = replace_all_s(s, "%.3f"@, "\\.\\d{3}"@);
    let s = replace_all_s(s, "%.6f"@, "\\.\\d{6}"@);
    let s = replace_all_s(s, "%.9f"@, "\\.\\d{9}"@);
    let s = replace_all_s(s, "%R"@, "\\d{2}:\\d{2}"@);
    let s = replace_all_s(s, "%T"@, "\\d{2}:\\d{2}:\\d{2}"@);
    let s = replace_all_s(s, "%X"@, "\\d{2}:\\d{2}:\\d{2}"@);
    let s = replace_all_s(s, "%r"@, "\\d{2}:\\d{2}:\\d{2} [AP]M"@);
    // Timezone specifiers
    let s = replace_all_s(s, "%Z"@, "[A-Z]+"@);
    let s = replace_all_s(s, "%z"@, "[\\+\\-]\\d{4}"@);
    let s = replace_all_s(s, "%:z"@, "\\+\\d{2}:\\d{2}"@);
    let s = replace_all_s(s, "%#z"@, "\\+\\d{2,4}"@);
    // Date & time specifiers
    let s = replace_all_s(s, "%c"@, "\\w{3} \\w{3} \\d+ \\d{2}:\\d{2}:\\d{2} \\d{4}"@);
    let s = replace_all_s(s, "%+"@, "\\d{4}-\\d{2}-\\d{2}T\\d{2}:\\d{2}:\\d{2}.\\d+\\+\\d{2}:\\d{2}"@);
    let s = replace_all_s(s, "%s"@, "\\d+"@);
    s
}

/// Compiles a format specifier into the text of the recognizing pattern by
/// substituting every token of the grammar, in the fixed order of
/// [`expand_s`]; literal characters pass through untouched.
pub fn expand(fmt: &str) -> (r: String)
    ensures
        r@ == expand_s(fmt@),
{
    let v = chars_vec(fmt);
    // Date specifiers
    let v = replace_all(&v, "%Y", "\\d{4}");
    let v = replace_all(&v, "%C", "\\d{2}");
    let v = replace_all(&v, "%y", "\\d{2}");
    let v = replace_all(&v, "%m", "\\d{2}");
    let v = replace_all(&v, "%b", "\\w{3}");
    let v = replace_all(&v, "%B", "\\w+");
    let v = replace_all(&v, "%h", "\\w{3}");
    let v = replace_all(&v, "%d", "\\d{2}");
    let v = replace_all(&v, "%e", "\\d+");
    let v = replace_all(&v, "%a", "\\w{3}");
    let v = replace_all(&v, "%A", "\\w+");
    let v = replace_all(&v, "%w", "\\d");
    let v = replace_all(&v, "%u", "\\d");
    let v = replace_all(&v, "%U", "\\d{2}");
    let v = replace_all(&v, "%W", "\\d{2}");
    let v = replace_all(&v, "%G", "\\d{4}");
    let v = replace_all(&v, "%g", "\\d{2}");
    let v = replace_all(&v, "%V", "\\d{2}");
    let v = replace_all(&v, "%j", "\\d{3}");
    let v = replace_all(&v, "%D", "\\d{2}/\\d{2}/\\d{2}");
    let v = replace_all(&v, "%x", "\\d{2}/\\d{2}/\\d{2}");
    let v = replace_all(&v, "%F", "\\d{4}-\\d{2}-\\d{2}");
    let v = replace_all(&v, "%v", "\\d{2}-\\w{3}-\\d{4}");
    // Time specifiers
    let v = replace_all(&v, "%H", "\\d{2}");
    let v = replace_all(&v, "%k", "\\d+");
    let v = replace_all(&v, "%I", "\\d{2}");
    let v = replace_all(&v, "%l", "\\d{1,2}");
    let v = replace_all(&v, "%P", "[ap]m)");
    let v = replace_all(&v, "%p", "[AP]M)");
    let v = replace_all(&v, "%M", "\\d{2}");
    let v = replace_all(&v, "%S", "\\d{2}");
    let v = replace_all(&v, "%f", "\\d+");
    let v = replace_all(&v, "%3f", "\\d{3}");
    let v = replace_all(&v, "%6f", "\\d{6}");
    let v = replace_all(&v, "%9f", "\\d{9}");
    let v = replace_all(&v, "%.f", "\\.\\d+");
    let v = replace_all(&v, "%.3f", "\\.\\d{3}");
    let v = replace_all(&v, "%.6f", "\\.\\d{6}");
    let v = replace_all(&v, "%.9f", "\\.\\d{9}");
    let v = replace_all(&v, "%R", "\\d{2}:\\d{2}");
    let v = replace_all(&v, "%T", "\\d{2}:\\d{2}:\\d{2}");
    let v = replace_all(&v, "%X", "\\d{2}:\\d{2}:\\d{2}");
    let v = replace_all(&v, "%r", "\\d{2}:\\d{2}:\\d{2} [AP]M");
    // Timezone specifiers
    let v = replace_all(&v, "%Z", "[A-Z]+");
    let v = replace_all(&v, "%z", "[\\+\\-]\\d{4}");
    let v = replace_all(&v, "%:z", "\\+\\d{2}:\\d{2}");
    let v = replace_all(&v, "%#z", "\\+\\d{2,4}");
    // Date & time specifiers
    let v = replace_all(&v, "%c", "\\w{3} \\w{3} \\d+ \\d{2}:\\d{2}:\\d{2} \\d{4}");
    let v = replace_all(&v, "%+", "\\d{4}-\\d{2}-\\d{2}T\\d{2}:\\d{2}:\\d{2}.\\d+\\+\\d{2}:\\d{2}");
    let v = replace_all(&v, "%s", "\\d+");
    proof {
        reveal(expand_s);
    }
    chars_to_string(&v)
}

/// One of the timezone tokens (`%Z`, `%z`, `%:z`, `%#z`) starts at
/// position `i` of `s`.
pub open spec fn tz_token_at(s: Seq<char>, i: int) -> bool {
    ||| (0 <= i && i + 2 <= s.len() && s[i] == '%' && (s[i + 1] == 'Z' || s[i + 1] == 'z'))
    ||| (0 <= i && i + 3 <= s.len() && s[i] == '%' && (s[i + 1] == ':' || s[i + 1] == '#') && s[i
        + 2] == 'z')
}

/// A format specifier is timezone-aware exactly when one of the timezone
/// tokens occurs somewhere in it.
pub open spec fn has_tz_s(s: Seq<char>) -> bool {
    exists|i: int| tz_token_at(s, i)
}

/// Whether the given format specifier holds any timezone token.
pub fn format_has_timezone(fmt: &str) -> (b: bool)
    ensures
        b == has_tz_s(fmt@),
{
    let v = chars_vec(fmt);
    let n = v.len();
    let mut i: usize = 0;
    while i < n
        invariant
            i <= n,
            n == v@.len(),
            v@ == fmt@,
            forall|j: int| 0 <= j < i ==> !tz_token_at(fmt@, j),
        decreases n - i,
    {
        if v[i] == '%' {
            if n - i >= 2 && (v[i + 1] == 'Z' || v[i + 1] == 'z') {
                assert(tz_token_at(fmt@, i as int));
                return true;
            }
            if n - i >= 3 && (v[i + 1] == ':' || v[i + 1] == '#') && v[i + 2] == 'z' {
                assert(tz_token_at(fmt@, i as int));
                return true;
            }
        }
        i = i + 1;
    }
    assert forall|j: int| !tz_token_at(fmt@, j) by {
        if 0 <= j < fmt@.len() {
            assert(!tz_token_at(fmt@, j));
        }
    }
    false
}

} // verus!
