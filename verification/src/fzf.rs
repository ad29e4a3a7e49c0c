//! Fuzzy-finder integration: available only when the finder executable is on
//! the path and standard output is an interactive terminal, and even then
//! subject to the user's specifier.

use vstd::prelude::*;
use crate::strops::{never_seq, split_ws, split_ws_chars, is_never, strings_of};
use crate::chars::chars_of;

verus! {

/// Relies on which::which: searches the system path for an executable of the
/// given name. The outcome depends on the machine, so nothing is promised.
#[verifier::external_body]
fn executable_on_path(name: &str) -> (r: bool) {
    which::which(name).is_ok()
}

/// Relies on atty::is: reports whether standard output is an interactive
/// terminal. The outcome depends on the process, so nothing is promised.
#[verifier::external_body]
fn p_tty() -> (r: bool) {
    atty::is(atty::Stream::Stdout)
}

/// Whether fuzzy-finder integration can run here: the finder is on the path
/// and standard output is an interactive terminal.
pub fn fzf_available() -> bool {
    let found = executable_on_path("fzf");
    let tty = p_tty();
    found && tty
}

/// The finder's extra argument list: nothing when integration is unavailable
/// or disabled by the word `never`, the whitespace tokens of the specifier
/// when one is given, and an empty list otherwise.
pub open spec fn fzf_spec(available: bool, spec_arg: Option<Seq<char>>) -> Option<Seq<Seq<char>>> {
    if !available {
        None
    } else {
        match spec_arg {
            None => Some(Seq::<Seq<char>>::empty()),
            Some(v) => if v == never_seq() {
                None
            } else {
                Some(split_ws(v))
            },
        }
    }
}

/// Resolves the finder's extra arguments from its availability and the
/// user's specifier.
pub fn fzf_resolve(available: bool, fzf: &Option<String>) -> (r: Option<Vec<String>>)
    ensures
        r.deep_view() == fzf_spec(available, fzf.deep_view()),
{
    if !available {
        return None;
    }
    match fzf {
        None => {
            let v: Vec<String> = Vec::new();
            proof {
                assert(v.deep_view() =~= Seq::<Seq<char>>::empty());
            }
            Some(v)
        },
        Some(val) => {
            if is_never(val) {
                None
            } else {
                let cs = chars_of(val.as_str());
                let toks = split_ws_chars(&cs);
                Some(strings_of(&toks))
            }
        },
    }
}

/// Resolves the finder's extra arguments as the run will see them: the
/// availability test is made here, so only what holds either way is known.
pub fn p_fzf(fzf: Option<String>) -> (r: Option<Vec<String>>)
    ensures
        exists|available: bool| r.deep_view() == fzf_spec(available, fzf.deep_view()),
{
    let available = fzf_available();
    let r = fzf_resolve(available, &fzf);
    proof {
        assert(r.deep_view() == fzf_spec(available, fzf.deep_view()));
    }
    r
}

} // verus!
