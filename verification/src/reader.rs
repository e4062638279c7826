//! The reading side, kept apart from the I/O that drives it: choosing the
//! input source from the command line, and assembling lines out of the raw
//! text the surrounding read loop feeds in.

use vstd::prelude::*;
use crate::text::chars_to_string;
use crate::text::chars_vec;
use crate::text::str_eq;

verus! {

/// Where the lines come from: standard input, or a named file.  Opening
/// and reading the source is the surrounding program's work.
#[derive(Debug)]
pub enum Input {
    Stdin,
    File(String),
}

impl Input {
    /// The source an optional filename selects: absent or `-` is standard
    /// input; any other name is that file.
    pub fn from_filename(name: Option<&str>) -> (r: Input)
        ensures
            match name {
                Some(n) => if n@ == "-"@ {
                    r is Stdin
                } else {
                    r matches Input::File(f) && f@ == n@
                },
                None => r is Stdin,
            },
    {
        match name {
            Some(n) => {
                if str_eq(n, "-") {
                    Input::Stdin
                } else {
                    Input::File(n.to_owned())
                }
            },
            None => Input::Stdin,
        }
    }
}

/// Index of the first newline in `p`, if any.
pub open spec fn first_newline(p: Seq<char>) -> Option<int>
    decreases p.len(),
{
    if p.len() == 0 {
        None
    } else if p[0] == '\n' {
        Some(0)
    } else {
        match first_newline(p.drop_first()) {
            Some(i) => Some(i + 1),
            None => None,
        }
    }
}

proof fn lemma_first_newline_at(p: Seq<char>, i: int)
    requires
        0 <= i < p.len(),
        p[i] == '\n',
        forall|j: int| 0 <= j < i ==> p[j] != '\n',
    ensures
        first_newline(p) == Some(i),
    decreases i,
{
    if i > 0 {
        let t = p.drop_first();
        assert(t[i - 1] == p[i]);
        assert forall|j: int| 0 <= j < i - 1 implies t[j] != '\n' by {
            assert(t[j] == p[j + 1]);
        }
        lemma_first_newline_at(t, i - 1);
    }
}

proof fn lemma_first_newline_none(p: Seq<char>)
    requires
        forall|j: int| 0 <= j < p.len() ==> p[j] != '\n',
    ensures
        first_newline(p) is None,
    decreases p.len(),
{
    if p.len() > 0 {
        let t = p.drop_first();
        assert forall|j: int| 0 <= j < t.len() implies t[j] != '\n' by {
            assert(t[j] == p[j + 1]);
        }
        lemma_first_newline_none(t);
    }
}

/// Position of the first newline in `v`, if any.
fn find_newline(v: &Vec<char>) -> (r: Option<usize>)
    ensures
        r matches Some(i) ==> i < v@.len() && first_newline(v@) == Some(i as int),
        r is None ==> first_newline(v@) is None,
{
    let m = v.len();
    let mut idx: usize = 0;
    while idx < m
        invariant
            idx <= m,
            m == v@.len(),
            forall|j: int| 0 <= j < idx ==> v@[j] != '\n',
        decreases m - idx,
    {
        if v[idx] == '\n' {
            proof {
                lemma_first_newline_at(v@, idx as int);
            }
            return Some(idx);
        }
        idx = idx + 1;
    }
    proof {
        lemma_first_newline_none(v@);
    }
    None
}

/// Assembles lines from a source that is read elsewhere: it holds the
/// pre-read first line, and a buffer of pending raw text from which each
/// completed line (through its newline) is taken in turn.
pub struct InputReader {
    first_line: String,
    pending: Vec<char>,
}

impl InputReader {
    /// The pre-read first line.
    pub closed spec fn spec_first_line(&self) -> Seq<char> {
        self.first_line@
    }

    /// The text fed in but not yet taken as lines.
    pub closed spec fn spec_pending(&self) -> Seq<char> {
        self.pending@
    }

    /// Wraps a source whose first line was already read.
    pub fn new(first_line: String) -> (r: InputReader)
        ensures
            r.spec_first_line() == first_line@,
            r.spec_pending() == Seq::<char>::empty(),
    {
        InputReader { first_line, pending: Vec::new() }
    }

    /// Getter for the pre-read first line.
    pub fn first_line(&self) -> (r: &str)
        ensures
            r@ == self.spec_first_line(),
    {
        self.first_line.as_str()
    }

    /// Appends raw text from the source to the pending buffer.
    pub fn feed(&mut self, chunk: &str)
        ensures
            final(self).spec_first_line() == old(self).spec_first_line(),
            final(self).spec_pending() == old(self).spec_pending() + chunk@,
    {
        let mut cv = chars_vec(chunk);
        self.pending.append(&mut cv);
    }

    /// Appends the next completed line (through its newline) to `buf` and
    /// drops it from the pending buffer; returns how many characters moved,
    /// 0 where no completed line is buffered yet (nothing changes then).
    pub fn read_line(&mut self, buf: &mut String) -> (n: usize)
        ensures
            final(self).spec_first_line() == old(self).spec_first_line(),
            match first_newline(old(self).spec_pending()) {
                Some(i) => n == i + 1 && final(buf)@ == old(buf)@
                    + old(self).spec_pending().subrange(0, i + 1) && final(self).spec_pending()
                    == old(self).spec_pending().skip(i + 1),
                None => n == 0 && final(buf)@ == old(buf)@ && final(self).spec_pending() == old(
                    self,
                ).spec_pending(),
            },
    {
        match find_newline(&self.pending) {
            Some(i) => {
                let mut taken = chars_vec(buf.as_str());
                let ghost buf0 = buf@;
                let m = self.pending.len();
                let mut k: usize = 0;
                while k <= i
                    invariant
                        k <= i + 1,
                        i < m,
                        m == self.pending@.len(),
                        taken@ == buf0 + self.pending@.subrange(0, k as int),
                    decreases i + 1 - k,
                {
                    taken.push(self.pending[k]);
                    k = k + 1;
                    assert(taken@ =~= buf0 + self.pending@.subrange(0, k as int));
                }
                let mut rest: Vec<char> = Vec::new();
                let mut t: usize = i + 1;
                while t < m
                    invariant
                        i + 1 <= t <= m,
                        m == self.pending@.len(),
                        rest@ == self.pending@.subrange(i + 1, t as int),
                    decreases m - t,
                {
                    rest.push(self.pending[t]);
                    t = t + 1;
                    assert(rest@ =~= self.pending@.subrange(i + 1, t as int));
                }
                assert(rest@ =~= self.pending@.skip(i + 1));
                *buf = chars_to_string(&taken);
                self.pending = rest;
                i + 1
            },
            None => 0,
        }
    }

    /// Appends whatever pending text remains (a final line without its
    /// newline) to `buf` and empties the buffer; returns how many
    /// characters moved.
    pub fn remainder(&mut self, buf: &mut String) -> (n: usize)
        ensures
            final(self).spec_first_line() == old(self).spec_first_line(),
            final(self).spec_pending() == Seq::<char>::empty(),
            final(buf)@ == old(buf)@ + old(self).spec_pending(),
            n == old(self).spec_pending().len(),
    {
        let mut taken = chars_vec(buf.as_str());
        let ghost buf0 = buf@;
        let m = self.pending.len();
        let mut k: usize = 0;
        while k < m
            invariant
                k <= m,
                m == self.pending@.len(),
                taken@ == buf0 + self.pending@.subrange(0, k as int),
            decreases m - k,
        {
            taken.push(self.pending[k]);
            k = k + 1;
            assert(taken@ =~= buf0 + self.pending@.subrange(0, k as int));
        }
        assert(taken@ =~= buf0 + self.pending@);
        *buf = chars_to_string(&taken);
        self.pending = Vec::new();
        m
    }
}

} // verus!
