//! Whitespace trimming for the interactive answer line.
//!
//! The overwrite prompt reads one line from the user; before it is compared
//! to `y`/`Y` the line is stripped of leading and trailing blanks (space,
//! tab, newline, carriage return — the characters a line read from a
//! terminal can carry around the answer).

use vstd::prelude::*;

verus! {

/// A character that trimming removes at either end of an answer line.
pub open spec fn is_blank(c: char) -> bool {
    c == ' ' || c == '\t' || c == '\n' || c == '\r'
}

/// The sequence with its leading blanks removed.
pub open spec fn trim_front_spec(s: Seq<char>) -> Seq<char>
    decreases s.len(),
{
    if s.len() > 0 && is_blank(s[0]) {
        trim_front_spec(s.subrange(1, s.len() as int))
    } else {
        s
    }
}

/// The sequence with its trailing blanks removed.
pub open spec fn trim_back_spec(s: Seq<char>) -> Seq<char>
    decreases s.len(),
{
    if s.len() > 0 && is_blank(s[s.len() - 1]) {
        trim_back_spec(s.subrange(0, s.len() - 1))
    } else {
        s
    }
}

/// The sequence with blanks removed at both ends.
pub open spec fn trimmed(s: Seq<char>) -> Seq<char> {
    trim_back_spec(trim_front_spec(s))
}

/// Whether trimming removes `c`.
pub fn blank_char(c: char) -> (r: bool)
    ensures
        r == is_blank(c),
{
    c == ' ' || c == '\t' || c == '\n' || c == '\r'
}

/// Strips leading and trailing blanks from `s`.
pub fn trim(s: &str) -> (r: String)
    ensures
        r@ == trimmed(s@),
{
    let n = s.unicode_len();
    proof {
        assert(s@.subrange(0, n as int) =~= s@);
    }
    let mut lo: usize = 0;
    while lo < n && blank_char(s.get_char(lo))
        invariant
            n == s@.len(),
            lo <= n,
            trim_front_spec(s@) == trim_front_spec(s@.subrange(lo as int, n as int)),
        decreases n - lo,
    {
        proof {
            assert(s@.subrange(lo as int, n as int).subrange(1, (n - lo) as int)
                =~= s@.subrange(lo as int + 1, n as int));
        }
        lo = lo + 1;
    }
    proof {
        assert(trim_front_spec(s@) == s@.subrange(lo as int, n as int));
    }
    let mut hi: usize = n;
    while hi > lo && blank_char(s.get_char(hi - 1))
        invariant
            n == s@.len(),
            lo <= hi <= n,
            trim_front_spec(s@) == s@.subrange(lo as int, n as int),
            trim_back_spec(s@.subrange(lo as int, n as int))
                == trim_back_spec(s@.subrange(lo as int, hi as int)),
        decreases hi,
    {
        proof {
            assert(s@.subrange(lo as int, hi as int).subrange(0, (hi - lo - 1) as int)
                =~= s@.subrange(lo as int, hi as int - 1));
        }
        hi = hi - 1;
    }
    let r = s.substring_char(lo, hi);
    proof {
        assert(trim_back_spec(s@.subrange(lo as int, hi as int))
            == s@.subrange(lo as int, hi as int));
    }
    r.to_owned()
}

/// Character-wise string equality.
pub fn str_eq(a: &str, b: &str) -> (r: bool)
    ensures
        r == (a@ == b@),
{
    let na = a.unicode_len();
    let nb = b.unicode_len();
    if na != nb {
        return false;
    }
    let mut i: usize = 0;
    while i < na
        invariant
            na == a@.len(),
            na == b@.len(),
            i <= na,
            forall|k: int| 0 <= k < i ==> a@[k] == b@[k],
        decreases na - i,
    {
        if a.get_char(i) != b.get_char(i) {
            return false;
        }
        i = i + 1;
    }
    proof {
        assert(a@ =~= b@);
    }
    true
}

} // verus!
