//! Output routing: straight to standard output, or through a pager
//! subprocess resolved from the user's specifier or an environment fallback.

use vstd::prelude::*;
use vstd::hash_map::StringHashMap;
use crate::strops::{
    never_seq,
    split_ws,
    split_ws_chars,
    before_pipe,
    before_pipe_chars,
    trim,
    trim_chars,
    is_never,
    strings_of,
};
use crate::chars::chars_of;
use crate::subprocess::SubprocessCommand;

verus! {

/// The pager a specifier resolves to: none for the word `never`; otherwise
/// the whitespace tokens of the first pipeline segment, trimmed, with the
/// first token the program and the rest its arguments; none again when no
/// token is left.
pub open spec fn pager_cmd_spec(val: Seq<char>) -> Option<(Seq<char>, Seq<Seq<char>>)> {
    if val == never_seq() {
        None
    } else {
        let toks = split_ws(trim(before_pipe(val)));
        if toks.len() == 0 {
            None
        } else {
            Some((toks[0], toks.drop_first()))
        }
    }
}

/// The pager the run resolves to: the explicit specifier when given, else
/// the environment fallback, else none.
pub open spec fn pager_spec(pager: Option<Seq<char>>, env_pager: Option<Seq<char>>) -> Option<
    (Seq<char>, Seq<Seq<char>>),
> {
    match (match pager {
        Some(p) => Some(p),
        None => env_pager,
    }) {
        None => None,
        Some(val) => pager_cmd_spec(val),
    }
}

/// Resolves the pager subprocess from the explicit specifier and the
/// environment fallback; its environment overrides are empty.
pub fn p_pager(pager: Option<String>, env_pager: Option<String>) -> (r: Option<SubprocessCommand>)
    ensures
        ({
            let m = pager_spec(pager.deep_view(), env_pager.deep_view());
            match r {
                None => m is None,
                Some(c) => match m {
                    Some(pm) => {
                        &&& c.program@ == pm.0
                        &&& c.arguments.deep_view() == pm.1
                        &&& c.env@ == Map::<Seq<char>, String>::empty()
                    },
                    None => false,
                },
            }
        }),
{
    let val: String = match pager {
        Some(p) => p,
        None => match env_pager {
            Some(g) => g,
            None => {
                return None;
            },
        },
    };
    if is_never(&val) {
        return None;
    }
    let cs = chars_of(val.as_str());
    let first = before_pipe_chars(&cs);
    let trimmed = trim_chars(&first);
    let toks = split_ws_chars(&trimmed);
    if toks.len() == 0 {
        return None;
    }
    let parts = strings_of(&toks);
    let mut arguments: Vec<String> = Vec::new();
    let mut i: usize = 1;
    while i < parts.len()
        invariant
            1 <= i <= parts.len(),
            arguments.len() + 1 == i,
            forall|k: int| 0 <= k < i - 1 ==> arguments.deep_view()[k] == parts.deep_view()[k + 1],
        decreases parts.len() - i,
    {
        let ghost oldargs = arguments@;
        let ghost olddeep = arguments.deep_view();
        let a = parts[i].clone();
        arguments.push(a);
        proof {
            assert(arguments.deep_view()[i - 1] == parts.deep_view()[i as int]);
            assert forall|k: int| 0 <= k < i - 1 implies arguments.deep_view()[k]
                == parts.deep_view()[k + 1] by {
                assert(arguments@[k] == oldargs[k]);
                assert(olddeep[k] == oldargs[k].deep_view());
            }
        }
        i = i + 1;
    }
    let program = parts[0].clone();
    proof {
        assert(arguments.deep_view() =~= parts.deep_view().drop_first());
    }
    Some(SubprocessCommand { program, arguments, env: StringHashMap::new() })
}

} // verus!
