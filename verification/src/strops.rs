//! Verified text operations over character sequences: splitting on a
//! delimiter, splitting on whitespace, trimming, and taking the part of a
//! pipeline before its first `|`.

use vstd::prelude::*;
use crate::chars::{is_wspace, char_is_whitespace, chars_of};
use vstd::string::StringExecFns;

verus! {

/// The segments of `s` around the delimiter `d`, with `cur` the piece read so
/// far; there is always at least one segment, and a trailing delimiter yields
/// a trailing empty segment.
pub open spec fn split_on_from(s: Seq<char>, d: char, cur: Seq<char>) -> Seq<Seq<char>>
    decreases s.len(),
{
    if s.len() == 0 {
        seq![cur]
    } else if s[0] == d {
        seq![cur] + split_on_from(s.drop_first(), d, Seq::empty())
    } else {
        split_on_from(s.drop_first(), d, cur.push(s[0]))
    }
}

/// The segments of `s` around the delimiter `d`.
pub open spec fn split_on(s: Seq<char>, d: char) -> Seq<Seq<char>> {
    split_on_from(s, d, Seq::empty())
}

/// Splits a character vector on the delimiter `d`.
pub fn split_on_chars(s: &Vec<char>, d: char) -> (r: Vec<Vec<char>>)
    ensures
        r.deep_view() == split_on(s@, d),
        r.len() >= 1,
{
    let mut out: Vec<Vec<char>> = Vec::new();
    let mut cur: Vec<char> = Vec::new();
    let mut i: usize = 0;
    proof {
        assert(s@.skip(0) =~= s@);
        assert(cur@ =~= Seq::<char>::empty());
        assert(out.deep_view() + split_on_from(s@, d, cur@) =~= split_on_from(s@, d, cur@));
    }
    while i < s.len()
        invariant
            i <= s.len(),
            split_on(s@, d) == out.deep_view() + split_on_from(s@.skip(i as int), d, cur@),
        decreases s.len() - i,
    {
        let ghost pre = s@.skip(i as int);
        let ghost oldout = out.deep_view();
        let ghost oldcur = cur@;
        proof {
            assert(pre[0] == s@[i as int]);
            assert(pre.drop_first() =~= s@.skip(i as int + 1));
        }
        if s[i] == d {
            out.push(cur);
            cur = Vec::new();
            proof {
                assert(cur@ =~= Seq::<char>::empty());
                assert(out.deep_view() =~~= oldout.push(oldcur));
                assert(oldout + (seq![oldcur] + split_on_from(
                    s@.skip(i as int + 1),
                    d,
                    Seq::empty(),
                )) =~= oldout.push(oldcur) + split_on_from(s@.skip(i as int + 1), d, Seq::empty()));
            }
        } else {
            cur.push(s[i]);
        }
        i = i + 1;
    }
    let ghost oldout = out.deep_view();
    let ghost oldcur = cur@;
    out.push(cur);
    proof {
        assert(s@.skip(s@.len() as int) =~= Seq::<char>::empty());
        assert(out.deep_view() =~~= oldout.push(oldcur));
        assert(oldout + seq![oldcur] =~= oldout.push(oldcur));
    }
    out
}

/// The tokens of `s` split on whitespace, with `cur` the token read so far;
/// tokens are maximal runs of non-whitespace characters, and empty tokens
/// never appear.
pub open spec fn split_ws_from(s: Seq<char>, cur: Seq<char>) -> Seq<Seq<char>>
    decreases s.len(),
{
    if s.len() == 0 {
        if cur.len() == 0 {
            Seq::empty()
        } else {
            seq![cur]
        }
    } else if is_wspace(s[0]) {
        (if cur.len() == 0 {
            Seq::<Seq<char>>::empty()
        } else {
            seq![cur]
        }) + split_ws_from(s.drop_first(), Seq::empty())
    } else {
        split_ws_from(s.drop_first(), cur.push(s[0]))
    }
}

/// The whitespace-separated tokens of `s`.
pub open spec fn split_ws(s: Seq<char>) -> Seq<Seq<char>> {
    split_ws_from(s, Seq::empty())
}

/// Splits a character vector into its whitespace-separated tokens.
pub fn split_ws_chars(s: &Vec<char>) -> (r: Vec<Vec<char>>)
    ensures
        r.deep_view() == split_ws(s@),
{
    let mut out: Vec<Vec<char>> = Vec::new();
    let mut cur: Vec<char> = Vec::new();
    let mut i: usize = 0;
    proof {
        assert(s@.skip(0) =~= s@);
        assert(cur@ =~= Seq::<char>::empty());
        assert(out.deep_view() + split_ws_from(s@, cur@) =~= split_ws_from(s@, cur@));
    }
    while i < s.len()
        invariant
            i <= s.len(),
            split_ws(s@) == out.deep_view() + split_ws_from(s@.skip(i as int), cur@),
        decreases s.len() - i,
    {
        let ghost pre = s@.skip(i as int);
        let ghost oldout = out.deep_view();
        let ghost oldcur = cur@;
        proof {
            assert(pre[0] == s@[i as int]);
            assert(pre.drop_first() =~= s@.skip(i as int + 1));
        }
        if char_is_whitespace(s[i]) {
            if cur.len() > 0 {
                out.push(cur);
                cur = Vec::new();
                proof {
                    assert(cur@ =~= Seq::<char>::empty());
                    assert(out.deep_view() =~~= oldout.push(oldcur));
                    assert(oldout + (seq![oldcur] + split_ws_from(
                        s@.skip(i as int + 1),
                        Seq::empty(),
                    )) =~= oldout.push(oldcur) + split_ws_from(s@.skip(i as int + 1), Seq::empty()));
                }
            } else {
                proof {
                    assert(cur@ =~= Seq::<char>::empty());
                    assert(Seq::<Seq<char>>::empty() + split_ws_from(
                        s@.skip(i as int + 1),
                        Seq::empty(),
                    ) =~= split_ws_from(s@.skip(i as int + 1), Seq::empty()));
                }
            }
        } else {
            cur.push(s[i]);
        }
        i = i + 1;
    }
    let ghost oldout = out.deep_view();
    let ghost oldcur = cur@;
    proof {
        assert(s@.skip(s@.len() as int) =~= Seq::<char>::empty());
    }
    if cur.len() > 0 {
        out.push(cur);
        proof {
            assert(out.deep_view() =~~= oldout.push(oldcur));
            assert(oldout + seq![oldcur] =~= oldout.push(oldcur));
        }
    } else {
        proof {
            assert(oldout + Seq::<Seq<char>>::empty() =~= oldout);
        }
    }
    out
}

/// The prefix of `s` before its first `|`, or all of `s` when it has none.
pub open spec fn before_pipe(s: Seq<char>) -> Seq<char>
    decreases s.len(),
{
    if s.len() == 0 {
        s
    } else if s[0] == '|' {
        Seq::empty()
    } else {
        seq![s[0]] + before_pipe(s.drop_first())
    }
}

/// Takes the characters of `s` before its first `|`.
pub fn before_pipe_chars(s: &Vec<char>) -> (r: Vec<char>)
    ensures
        r@ == before_pipe(s@),
{
    let mut out: Vec<char> = Vec::new();
    let mut i: usize = 0;
    proof {
        assert(s@.skip(0) =~= s@);
        assert(out@ + before_pipe(s@) =~= before_pipe(s@));
    }
    while i < s.len()
        invariant
            i <= s.len(),
            before_pipe(s@) == out@ + before_pipe(s@.skip(i as int)),
        decreases s.len() - i,
    {
        let ghost pre = s@.skip(i as int);
        let ghost oldout = out@;
        proof {
            assert(pre[0] == s@[i as int]);
            assert(pre.drop_first() =~= s@.skip(i as int + 1));
        }
        if s[i] == '|' {
            proof {
                assert(out@ =~= before_pipe(s@));
            }
            return out;
        }
        out.push(s[i]);
        proof {
            assert(out@ =~= oldout + seq![s@[i as int]]);
            assert((oldout + seq![s@[i as int]]) + before_pipe(s@.skip(i as int + 1)) =~= oldout
                + (seq![s@[i as int]] + before_pipe(s@.skip(i as int + 1))));
        }
        i = i + 1;
    }
    proof {
        assert(s@.skip(s@.len() as int) =~= Seq::<char>::empty());
        assert(out@ =~= before_pipe(s@));
    }
    out
}

/// `s` without its leading whitespace.
pub open spec fn trim_start(s: Seq<char>) -> Seq<char>
    decreases s.len(),
{
    if s.len() == 0 {
        s
    } else if is_wspace(s[0]) {
        trim_start(s.drop_first())
    } else {
        s
    }
}

/// `s` without its trailing whitespace.
pub open spec fn trim_end(s: Seq<char>) -> Seq<char>
    decreases s.len(),
{
    if s.len() == 0 {
        s
    } else if is_wspace(s.last()) {
        trim_end(s.drop_last())
    } else {
        s
    }
}

/// `s` without its leading and trailing whitespace.
pub open spec fn trim(s: Seq<char>) -> Seq<char> {
    trim_end(trim_start(s))
}

/// Removes leading and trailing whitespace from a character vector.
pub fn trim_chars(s: &Vec<char>) -> (r: Vec<char>)
    ensures
        r@ == trim(s@),
{
    let mut i: usize = 0;
    proof {
        assert(s@.skip(0) =~= s@);
    }
    loop
        invariant
            i <= s.len(),
            trim_start(s@) == trim_start(s@.skip(i as int)),
        ensures
            i <= s.len(),
            trim_start(s@) == s@.skip(i as int),
        decreases s.len() - i,
    {
        if i == s.len() {
            proof {
                assert(s@.skip(s@.len() as int) =~= Seq::<char>::empty());
            }
            break ;
        }
        proof {
            assert(s@.skip(i as int)[0] == s@[i as int]);
            assert(s@.skip(i as int).drop_first() =~= s@.skip(i as int + 1));
        }
        if !char_is_whitespace(s[i]) {
            break ;
        }
        i = i + 1;
    }
    let mut j: usize = s.len();
    proof {
        assert(s@.skip(i as int) =~= s@.subrange(i as int, s@.len() as int));
    }
    loop
        invariant
            i <= j <= s.len(),
            trim_start(s@) == s@.skip(i as int),
            trim_end(s@.skip(i as int)) == trim_end(s@.subrange(i as int, j as int)),
        ensures
            i <= j <= s.len(),
            trim_end(s@.skip(i as int)) == trim_end(s@.subrange(i as int, j as int)),
            j == i || !is_wspace(s@[j - 1]),
        decreases j,
    {
        if j == i {
            break ;
        }
        proof {
            let piece = s@.subrange(i as int, j as int);
            assert(piece.last() == s@[j - 1]);
            assert(piece.drop_last() =~= s@.subrange(i as int, j as int - 1));
        }
        if !char_is_whitespace(s[j - 1]) {
            break ;
        }
        j = j - 1;
    }
    let mut out: Vec<char> = Vec::new();
    let mut k: usize = i;
    proof {
        assert(out@ =~= s@.subrange(i as int, i as int));
    }
    while k < j
        invariant
            i <= k <= j <= s.len(),
            out@ == s@.subrange(i as int, k as int),
        decreases j - k,
    {
        out.push(s[k]);
        proof {
            assert(out@ =~= s@.subrange(i as int, k as int + 1));
        }
        k = k + 1;
    }
    proof {
        let piece = s@.subrange(i as int, j as int);
        if j == i {
            assert(piece =~= Seq::<char>::empty());
        } else {
            assert(!is_wspace(piece.last()));
        }
        assert(out@ =~= trim(s@));
    }
    out
}

/// The five characters of the word that disables a pager or finder.
pub open spec fn never_seq() -> Seq<char> {
    seq!['n', 'e', 'v', 'e', 'r']
}

/// Whether a string is exactly the disabling word `never`.
pub fn is_never(s: &String) -> (r: bool)
    ensures
        r == (s@ == never_seq()),
{
    let never: String = String::from_str("never");
    proof {
        reveal_strlit("never");
        assert("never"@ =~= never_seq());
    }
    *s == never
}

/// Rebuilds each character-vector token as a string.
pub fn strings_of(toks: &Vec<Vec<char>>) -> (r: Vec<String>)
    ensures
        r.deep_view() == toks.deep_view(),
{
    let mut out: Vec<String> = Vec::new();
    let mut i: usize = 0;
    while i < toks.len()
        invariant
            i <= toks.len(),
            out.len() == i,
            forall|k: int| 0 <= k < i ==> out.deep_view()[k] == toks.deep_view()[k],
        decreases toks.len() - i,
    {
        let t = crate::chars::string_of(&toks[i]);
        out.push(t);
        proof {
            assert(toks@[i as int].deep_view() =~= toks@[i as int]@);
            assert(out.deep_view()[i as int] == toks.deep_view()[i as int]);
        }
        i = i + 1;
    }
    proof {
        assert(out.deep_view() =~= toks.deep_view());
    }
    out
}

} // verus!
