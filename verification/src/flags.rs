//! The effective engine flag set: an automatic case-sensitivity default
//! computed from the pattern, followed by every user-supplied flag character
//! in order.

use vstd::prelude::*;
use crate::chars::{is_upper, char_is_uppercase, chars_of};

verus! {

/// Whether the pattern holds at least one uppercase letter.
pub open spec fn has_upper(p: Seq<char>) -> bool {
    exists|i: int| 0 <= i < p.len() && #[trigger] is_upper(p[i])
}

/// The automatic flag set: case-sensitive (`I`) for a pattern with an
/// uppercase letter, case-insensitive (`i`) otherwise.
pub open spec fn auto_flags(p: Seq<char>) -> Seq<char> {
    if has_upper(p) {
        seq!['I']
    } else {
        seq!['i']
    }
}

/// The effective flag set: the automatic default, then each user flag
/// character in order, duplicates and contradictions kept.
pub open spec fn flagset(p: Seq<char>, user: Option<Seq<char>>) -> Seq<char> {
    auto_flags(p) + (match user {
        Some(u) => u,
        None => Seq::<char>::empty(),
    })
}

/// Computes the automatic flag set of a pattern.
pub fn p_auto_flags(pattern: &str) -> (r: Vec<char>)
    ensures
        r@ == auto_flags(pattern@),
{
    let cs = chars_of(pattern);
    let mut i: usize = 0;
    while i < cs.len()
        invariant
            i <= cs.len(),
            cs@ == pattern@,
            forall|j: int| 0 <= j < i ==> !is_upper(pattern@[j]),
        decreases cs.len() - i,
    {
        if char_is_uppercase(cs[i]) {
            proof {
                assert(is_upper(pattern@[i as int]));
            }
            let mut v: Vec<char> = Vec::new();
            v.push('I');
            proof {
                assert(v@ =~= auto_flags(pattern@));
            }
            return v;
        }
        i = i + 1;
    }
    proof {
        assert(!has_upper(pattern@));
    }
    let mut v: Vec<char> = Vec::new();
    v.push('i');
    proof {
        assert(v@ =~= auto_flags(pattern@));
    }
    v
}

/// Computes the effective flag set from the pattern and the optional
/// user-supplied flag string.
pub fn resolved_flags(pattern: &str, flags: &Option<String>) -> (r: Vec<char>)
    ensures
        r@ == flagset(pattern@, flags.deep_view()),
{
    let mut v = p_auto_flags(pattern);
    match flags {
        Some(f) => {
            let mut fc = chars_of(f.as_str());
            v.append(&mut fc);
        },
        None => {
            proof {
                assert(v@ + Seq::<char>::empty() =~= v@);
            }
        },
    }
    v
}

} // verus!
