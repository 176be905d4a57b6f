//! Path strings: base name and destination resolution.
//!
//! Paths are plain strings whose components are separated by `/`.  An import
//! without an explicit destination lands in the current directory, and the
//! copied entry keeps the base name of its source: the destination path is
//! the destination directory joined with that base name.

use vstd::prelude::*;
use vstd::string::StrSliceExecFns;
use vstd::string::StringExecFns;

verus! {

/// The path component separator.
pub open spec fn sep() -> char {
    '/'
}

/// Whether the sequence holds a separator anywhere.
pub open spec fn contains_sep(s: Seq<char>) -> bool {
    exists|i: int| 0 <= i < s.len() && s[i] == sep()
}

/// The part of a path after its last separator; the whole path when it has
/// none.  A path that ends in a separator has an empty base name.
pub open spec fn base_name_spec(s: Seq<char>) -> Seq<char>
    decreases s.len(),
{
    if s.len() > 0 && contains_sep(s) {
        base_name_spec(s.subrange(1, s.len() as int))
    } else {
        s
    }
}

/// The destination path of an import: the destination directory joined with
/// the source's base name.
pub open spec fn import_dest_spec(source: Seq<char>, dir: Seq<char>) -> Seq<char> {
    if dir.len() == 0 {
        base_name_spec(source)
    } else if dir[dir.len() - 1] == sep() {
        dir + base_name_spec(source)
    } else {
        dir + seq![sep()] + base_name_spec(source)
    }
}

/// Peeling the front of a path does not change its base name while a
/// separator remains; from that, the base name is the suffix after the last
/// separator.
proof fn lemma_base_name_after_last_sep(s: Seq<char>, j: int)
    requires
        0 <= j < s.len(),
        s[j] == sep(),
        forall|k: int| j < k < s.len() ==> s[k] != sep(),
    ensures
        base_name_spec(s) == s.subrange(j + 1, s.len() as int),
    decreases s.len(),
{
    assert(contains_sep(s));
    let tail = s.subrange(1, s.len() as int);
    if j == 0 {
        assert(!contains_sep(tail)) by {
            assert forall|i: int| 0 <= i < tail.len() implies tail[i] != sep() by {
                assert(tail[i] == s[i + 1]);
            }
        }
        assert(base_name_spec(tail) == tail);
    } else {
        lemma_base_name_after_last_sep(tail, j - 1);
        assert(tail.subrange(j, tail.len() as int) =~= s.subrange(j + 1, s.len() as int));
    }
}

/// Extracts the base name of a path.
pub fn base_name(s: &str) -> (r: String)
    ensures
        r@ == base_name_spec(s@),
{
    let n = s.unicode_len();
    let mut i: usize = n;
    while i > 0 && s.get_char(i - 1) != '/'
        invariant
            n == s@.len(),
            i <= n,
            forall|k: int| i <= k < n ==> s@[k] != sep(),
        decreases i,
    {
        i = i - 1;
    }
    proof {
        if i > 0 {
            lemma_base_name_after_last_sep(s@, i - 1);
        } else {
            assert(!contains_sep(s@));
            assert(s@.subrange(0, n as int) =~= s@);
        }
    }
    s.substring_char(i, n).to_owned()
}

/// Joins the destination directory with the source's base name.
pub fn import_target(source: &str, dir: &str) -> (r: String)
    ensures
        r@ == import_dest_spec(source@, dir@),
{
    let base = base_name(source);
    let n = dir.unicode_len();
    if n == 0 {
        base
    } else if dir.get_char(n - 1) == '/' {
        let mut s = dir.to_owned();
        s.append(base.as_str());
        s
    } else {
        let mut s = dir.to_owned();
        s.append("/");
        proof {
            reveal_strlit("/");
            assert(s@ =~= dir@ + seq![sep()]);
        }
        s.append(base.as_str());
        s
    }
}

} // verus!
