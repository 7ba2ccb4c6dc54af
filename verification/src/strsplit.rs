//! Splitting a string at the occurrences of a delimiter. A delimiter is
//! anything that can locate its first match in a text — a character or a
//! substring — and the splitter yields the stretch before each match,
//! consuming the match itself; positions and lengths count characters.

use vstd::prelude::*;
use vstd::string::StrSliceExecFns;

verus! {

/// Something that can locate its first match in a text.
pub trait Delimiter: Sized {
    /// How many characters one match spans.
    spec fn match_len(&self) -> nat;

    /// Whether a match begins at position `i` of `s`.
    spec fn matches_at(&self, s: Seq<char>, i: int) -> bool;

    /// A match always lies inside the text.
    proof fn lemma_matches_in_range(&self, s: Seq<char>, i: int)
        requires
            self.matches_at(s, i),
        ensures
            0 <= i && i + self.match_len() <= s.len(),
    ;

    /// The first match, as its start and end positions; `None` when the
    /// delimiter does not occur.
    fn find_next(&self, s: &str) -> (r: Option<(usize, usize)>)
        ensures
            match r {
                Some(pair) => {
                    &&& pair.1 == pair.0 + self.match_len()
                    &&& self.matches_at(s@, pair.0 as int)
                    &&& forall|j: int| 0 <= j < pair.0 ==> !self.matches_at(s@, j)
                },
                None => forall|i: int| !self.matches_at(s@, i),
            },
    ;
}

/// The delimiter matches somewhere in `s`.
pub open spec fn has_match<D: Delimiter>(d: D, s: Seq<char>) -> bool {
    exists|i: int| d.matches_at(s, i)
}

/// A match begins at `i` and none begins earlier.
pub open spec fn is_first_match<D: Delimiter>(d: D, s: Seq<char>, i: int) -> bool {
    d.matches_at(s, i) && forall|j: int| 0 <= j < i ==> !d.matches_at(s, j)
}

impl Delimiter for char {
    open spec fn match_len(&self) -> nat {
        1
    }

    open spec fn matches_at(&self, s: Seq<char>, i: int) -> bool {
        0 <= i < s.len() && s[i] == *self
    }

    proof fn lemma_matches_in_range(&self, s: Seq<char>, i: int) {
    }

    fn find_next(&self, s: &str) -> (r: Option<(usize, usize)>) {
        let n = s.unicode_len();
        let mut i: usize = 0;
        while i < n
            invariant
                n == s@.len(),
                i <= n,
                forall|j: int| 0 <= j < i ==> !self.matches_at(s@, j),
            decreases n - i,
        {
            if s.get_char(i) == *self {
                return Some((i, i + 1));
            }
            i = i + 1;
        }
        None
    }
}

/// Whether the characters of `d` appear in `s` starting at position `i`.
fn str_match_at(s: &str, d: &str, i: usize) -> (b: bool)
    requires
        i + d@.len() <= s@.len(),
    ensures
        b == (s@.subrange(i as int, i + d@.len()) == d@),
{
    let sn = s.unicode_len();
    let dl = d.unicode_len();
    let mut j: usize = 0;
    while j < dl
        invariant
            sn == s@.len(),
            dl == d@.len(),
            i + d@.len() <= s@.len(),
            j <= dl,
            forall|k: int| 0 <= k < j ==> s@[i + k] == d@[k],
        decreases dl - j,
    {
        if s.get_char(i + j) != d.get_char(j) {
            proof {
                assert(s@.subrange(i as int, i + d@.len())[j as int] == s@[i + j]);
            }
            return false;
        }
        j = j + 1;
    }
    proof {
        assert(s@.subrange(i as int, i + d@.len()) =~= d@);
    }
    true
}

impl<'d> Delimiter for &'d str {
    open spec fn match_len(&self) -> nat {
        self@.len()
    }

    open spec fn matches_at(&self, s: Seq<char>, i: int) -> bool {
        0 <= i && i + self@.len() <= s.len() && s.subrange(i, i + self@.len()) == self@
    }

    proof fn lemma_matches_in_range(&self, s: Seq<char>, i: int) {
    }

    fn find_next(&self, s: &str) -> (r: Option<(usize, usize)>) {
        let n = s.unicode_len();
        let dl = self.unicode_len();
        if dl > n {
            return None;
        }
        let limit = n - dl;
        let mut i: usize = 0;
        loop
            invariant
                n == s@.len(),
                dl == self@.len(),
                dl <= n,
                limit == n - dl,
                i <= limit,
                forall|j: int| 0 <= j < i ==> !self.matches_at(s@, j),
            decreases limit - i,
        {
            if str_match_at(s, self, i) {
                return Some((i, i + dl));
            }
            if i == limit {
                proof {
                    assert forall|j: int| !self.matches_at(s@, j) by {
                        if 0 <= j && j + self@.len() <= s@.len() {
                            assert(j <= limit);
                        }
                    }
                }
                return None;
            }
            i = i + 1;
        }
    }
}

/// An iterator-like splitter: what remains of the haystack, and the
/// delimiter to split at.
pub struct StrSplit<'h, D> {
    remainder: Option<&'h str>,
    delimiter: D,
}

impl<'h, D> StrSplit<'h, D> {
    /// What remains to be split, if anything.
    pub closed spec fn remainder_spec(&self) -> Option<Seq<char>> {
        match self.remainder {
            Some(s) => Some(s@),
            None => None,
        }
    }

    /// The delimiter the splitter was built with.
    pub closed spec fn delimiter_spec(&self) -> D {
        self.delimiter
    }

    pub fn new(haystack: &'h str, delimiter: D) -> (r: Self)
        ensures
            r.remainder_spec() == Some(haystack@),
            r.delimiter_spec() == delimiter,
    {
        StrSplit { remainder: Some(haystack), delimiter }
    }
}

impl<'h, D: Delimiter> StrSplit<'h, D> {
    /// The next stretch: everything before the first match of the
    /// delimiter, whose characters are consumed along with it — or all
    /// that remains, when the delimiter no longer occurs. Yields `None`
    /// only once everything has been yielded; the final stretch is empty
    /// when the haystack ends with the delimiter.
    pub fn next(&mut self) -> (r: Option<&'h str>)
        ensures
            final(self).delimiter_spec() == old(self).delimiter_spec(),
            match old(self).remainder_spec() {
                None => r is None && final(self).remainder_spec() is None,
                Some(rem) => match r {
                    None => false,
                    Some(out) => if has_match(old(self).delimiter_spec(), rem) {
                        exists|i: int|
                            {
                                &&& #[trigger] is_first_match(old(self).delimiter_spec(), rem, i)
                                &&& out@ == rem.subrange(0, i)
                                &&& final(self).remainder_spec() == Some(
                                    rem.subrange(
                                        i + old(self).delimiter_spec().match_len(),
                                        rem.len() as int,
                                    ),
                                )
                            }
                    } else {
                        out@ == rem && final(self).remainder_spec() is None
                    },
                },
            },
    {
        let remainder = match self.remainder {
            Some(rem) => rem,
            None => { return None },
        };
        match self.delimiter.find_next(remainder) {
            Some((start, end)) => {
                proof {
                    self.delimiter.lemma_matches_in_range(remainder@, start as int);
                    assert(is_first_match(old(self).delimiter_spec(), remainder@, start as int));
                    assert(has_match(old(self).delimiter_spec(), remainder@));
                }
                let until = remainder.substring_char(0, start);
                let rest = remainder.substring_char(end, remainder.unicode_len());
                self.remainder = Some(rest);
                Some(until)
            },
            None => {
                self.remainder = None;
                Some(remainder)
            },
        }
    }
}

/// The stretch of `s` before the first occurrence of `c`: the whole of `s`
/// when `c` does not occur.
pub fn until_char<'a>(s: &'a str, c: char) -> (r: &'a str)
    ensures
        if has_match(c, s@) {
            exists|i: int| #[trigger] is_first_match(c, s@, i) && r@ == s@.subrange(0, i)
        } else {
            r@ == s@
        },
{
    let mut split = StrSplit::new(s, c);
    match split.next() {
        Some(out) => out,
        None => {
            proof {
                assert(false);
            }
            s
        },
    }
}

} // verus!
