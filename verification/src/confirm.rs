//! Overwrite confirmation.
//!
//! Whenever a destination already exists the tool asks before touching it.
//! The exchange has two states, prompting and resolved: the prompt line is
//! shown, one answer line is read, and the answer resolves the prompt to
//! confirmed or declined.  Only a trimmed answer of exactly `y` or `Y`
//! confirms; every other line — including an empty one — declines, and a
//! declined prompt skips the operation without raising an error.

use vstd::prelude::*;
use crate::text::trim;
use crate::text::trimmed;
use vstd::string::StrSliceExecFns;
use vstd::string::StringExecFns;

verus! {

/// How a shown overwrite prompt was resolved by the user's answer.
#[derive(Clone, Copy, Debug, PartialEq, Eq, Structural)]
pub enum Decision {
    Confirmed,
    Declined,
}

/// Whether an answer line confirms an overwrite: trimmed, it must read
/// exactly `y` or `Y`.
pub open spec fn answer_confirms(line: Seq<char>) -> bool {
    trimmed(line) == seq!['y'] || trimmed(line) == seq!['Y']
}

/// The prompt line shown for a destination that already exists.
pub open spec fn prompt_for(path: Seq<char>) -> Seq<char> {
    "Warning: "@ + path + ": "@ + " already exists. Overwrite? (y/n): "@
}

/// Resolves one answer line read from the user.
pub fn decide_overwrite(line: &str) -> (d: Decision)
    ensures
        d == Decision::Confirmed <==> answer_confirms(line@),
{
    let t = trim(line);
    let n = t.as_str().unicode_len();
    if n == 1 {
        let c = t.as_str().get_char(0);
        if c == 'y' || c == 'Y' {
            proof {
                if c == 'y' {
                    assert(trimmed(line@) =~= seq!['y']);
                } else {
                    assert(trimmed(line@) =~= seq!['Y']);
                }
            }
            Decision::Confirmed
        } else {
            Decision::Declined
        }
    } else {
        Decision::Declined
    }
}

/// Builds the prompt line for a destination that already exists.
pub fn overwrite_prompt(path: &str) -> (r: String)
    ensures
        r@ == prompt_for(path@),
{
    let mut s = String::from_str("Warning: ");
    s.append(path);
    s.append(": ");
    s.append(" already exists. Overwrite? (y/n): ");
    s
}

} // verus!
