//! The library's stated laws, proved once and for all inputs: what the
//! automatic flags are, which flags each engine rejects, how the action
//! precedence behaves, and that resolution is deterministic.

use vstd::prelude::*;
use crate::argparse::{Action, Arguments, Environment, Options, action_spec, options_matches};
use crate::engine::{
    Engine,
    literal_flag_char,
    literal_flags_valid,
    regex_flag_char,
    regex_flags_valid,
};
use crate::flags::{has_upper, auto_flags};
use crate::fzf::fzf_spec;
use crate::argparse::Printer;

verus! {

/// The automatic flag set is exactly `I` for a pattern with an uppercase
/// letter, and exactly `i` otherwise.
pub proof fn lemma_auto_flags(p: Seq<char>)
    ensures
        has_upper(p) ==> auto_flags(p) == seq!['I'],
        !has_upper(p) ==> auto_flags(p) == seq!['i'],
{
}

/// A flag set holding any character outside `I`/`i` is invalid for the
/// literal engine.
pub proof fn lemma_literal_flag_rejected(fs: Seq<char>, i: int)
    requires
        0 <= i < fs.len(),
        !literal_flag_char(fs[i]),
    ensures
        !literal_flags_valid(fs),
{
}

/// A flag set holding any character outside `I`/`i`/`m`/`s`/`U`/`x` is
/// invalid for the regular-expression engine.
pub proof fn lemma_regex_flag_rejected(fs: Seq<char>, i: int)
    requires
        0 <= i < fs.len(),
        !regex_flag_char(fs[i]),
    ensures
        !regex_flags_valid(fs),
{
}

/// An explicit commit request yields Commit, whatever the other inputs say.
pub proof fn lemma_commit_wins(has_patch: bool, has_preview: bool, fzf_off: bool)
    ensures
        action_spec(true, has_patch, has_preview, fzf_off) == Action::Commit,
{
}

/// Without a commit request, an internal patch list, or a usable fuzzy
/// finder, the run always previews.
pub proof fn lemma_no_finder_previews(has_preview: bool)
    ensures
        action_spec(false, false, has_preview, true) == Action::Preview,
{
}

/// An unavailable fuzzy finder resolves to no finder arguments whatever the
/// specifier says, and so forces Preview on every run that does not commit.
pub proof fn lemma_unavailable_finder_forces_preview(
    spec_arg: Option<Seq<char>>,
    has_preview: bool,
)
    ensures
        fzf_spec(false, spec_arg) is None,
        action_spec(false, false, has_preview, fzf_spec(false, spec_arg) is None)
            == Action::Preview,
{
}

/// The engine's observable shape: whether it is the literal engine, and its
/// replacement text.
pub open spec fn engine_model(e: Engine) -> (bool, Seq<char>) {
    match e {
        Engine::AhoCorasick(_, r) => (true, r@),
        Engine::Regex(_, r) => (false, r@),
    }
}

/// The printer's observable shape: nothing for standard output, else the
/// pager's program, arguments and environment overrides.
pub open spec fn printer_model(p: Printer) -> Option<
    (Seq<char>, Seq<Seq<char>>, Map<Seq<char>, String>),
> {
    match p {
        Printer::Stdout => None,
        Printer::Pager(c) => Some((c.program@, c.arguments.deep_view(), c.env@)),
    }
}

/// Resolution is deterministic: two configurations resolved from the same
/// arguments and the same surroundings agree in every observable respect.
pub proof fn lemma_resolution_deterministic(
    o1: Options,
    o2: Options,
    a: Arguments,
    env: Environment,
)
    requires
        options_matches(o1, a, env),
        options_matches(o2, a, env),
    ensures
        o1.name@ == o2.name@,
        o1.action == o2.action,
        o1.unified == o2.unified,
        o1.fzf.deep_view() == o2.fzf.deep_view(),
        engine_model(o1.engine) == engine_model(o2.engine),
        printer_model(o1.printer) == printer_model(o2.printer),
{
}

} // verus!
