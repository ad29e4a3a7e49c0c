//! The structured arguments, the re-invocation reconstructor, and the final
//! resolution of one run's options.

use vstd::prelude::*;
use vstd::string::StringExecFns;
use crate::chars::{chars_of, string_of};
use crate::engine::{
    Engine,
    literal_flags_valid,
    regex_flags_valid,
    regex_cfg,
    regex_build_ok,
    p_aho_corasick,
    p_regex,
};
use crate::errors::Fail;
use crate::flags::{flagset, resolved_flags};
use crate::fzf::{fzf_spec, fzf_resolve};
use crate::pager::{pager_spec, p_pager};
use crate::strops::{split_on, split_on_chars};
use crate::subprocess::SubprocessCommand;

verus! {

/// The raw structured input of one run. The pattern is always present;
/// validation happens downstream, when the engine is built. The three
/// `internal_`/`shell` fields exist only for re-invocation bookkeeping.
pub struct Arguments {
    pub pattern: String,
    pub replace: Option<String>,
    pub nul_delim: bool,
    pub commit: bool,
    pub exact: bool,
    pub flags: Option<String>,
    pub pager: Option<String>,
    pub fzf: Option<String>,
    pub unified: Option<usize>,
    pub internal_preview: Option<String>,
    pub internal_patch: Option<Vec<String>>,
    pub shell: Option<String>,
}

/// The run's single operating mode.
pub enum Action {
    Preview,
    Commit,
    Fzf,
}

/// Where rendered output goes.
pub enum Printer {
    Stdout,
    Pager(SubprocessCommand),
}

/// What the process's surroundings contribute to resolution: the resolved
/// executable name, whether the fuzzy finder can run, and the environment's
/// pager fallback. Injected explicitly so that resolution is deterministic.
pub struct Environment {
    pub name: String,
    pub fzf_available: bool,
    pub git_pager: Option<String>,
}

/// What shell lexing makes of a string: its tokens, or nothing when the
/// input is erroneous.
pub uninterp spec fn shlex_of(s: Seq<char>) -> Option<Seq<Seq<char>>>;

/// Relies on shlex::split: splits by POSIX shell lexing rules; the result
/// depends on the characters alone, and is None for erroneous input (such as
/// an unclosed quote).
#[verifier::external_body]
fn shlex_split(s: &str) -> (r: Option<Vec<String>>)
    ensures
        r.deep_view() == shlex_of(s@),
{
    shlex::split(s)
}

/// The delimiter that joins segments of a re-invocation blob: a control
/// character not expected in normal shell text.
pub open spec fn blob_delim() -> char {
    '\u{4}'
}

/// What the re-invocation form rebuilds: when the second argument is `-c`,
/// the third is split on the delimiter; the program name and every segment
/// but the last pass through literally, and the last segment contributes its
/// shell-lexed tokens, or nothing when lexing fails.
pub open spec fn reconstruct_spec(argv: Seq<Seq<char>>) -> Option<Seq<Seq<char>>> {
    if argv.len() >= 3 && argv[1] == seq!['-', 'c'] {
        let segs = split_on(argv[2], blob_delim());
        let lexed = match shlex_of(segs.last()) {
            Some(ts) => ts,
            None => Seq::<Seq<char>>::empty(),
        };
        Some(seq![argv[0]] + segs.drop_last() + lexed)
    } else {
        None
    }
}

/// Detects the re-invocation form of the raw argument list and rebuilds the
/// true argument list from it; any other argument list passes through
/// untouched for ordinary parsing.
pub fn reconstruct_args(argv: &Vec<String>) -> (r: Option<Vec<String>>)
    ensures
        r.deep_view() == reconstruct_spec(argv.deep_view()),
{
    if argv.len() < 3 {
        return None;
    }
    let dash_c: String = String::from_str("-c");
    proof {
        reveal_strlit("-c");
        assert("-c"@ =~= seq!['-', 'c']);
        assert(argv.deep_view()[1] == argv@[1]@);
    }
    if !(argv[1] == dash_c) {
        return None;
    }
    let blob = chars_of(argv[2].as_str());
    proof {
        assert(argv.deep_view()[2] == argv@[2]@);
        assert(argv.deep_view()[0] == argv@[0]@);
    }
    let segs = split_on_chars(&blob, '\u{4}');
    let ghost sspec = split_on(argv.deep_view()[2], blob_delim());
    let mut out: Vec<String> = Vec::new();
    out.push(argv[0].clone());
    let mut i: usize = 0;
    while i + 1 < segs.len()
        invariant
            i < segs.len(),
            segs.deep_view() == sspec,
            out.len() == i + 1,
            out.deep_view()[0] == argv.deep_view()[0],
            forall|k: int| 0 <= k < i ==> out.deep_view()[k + 1] == sspec[k],
        decreases segs.len() - i,
    {
        let ghost oldout = out@;
        let ghost olddeep = out.deep_view();
        let t = string_of(&segs[i]);
        out.push(t);
        proof {
            assert(segs@[i as int].deep_view() =~= segs@[i as int]@);
            assert(out.deep_view()[i + 1] == sspec[i as int]);
            assert forall|k: int| 0 <= k < i implies out.deep_view()[k + 1] == sspec[k] by {
                assert(out@[k + 1] == oldout[k + 1]);
                assert(olddeep[k + 1] == oldout[k + 1].deep_view());
            }
            assert(out.deep_view()[0] == oldout[0].deep_view());
        }
        i = i + 1;
    }
    let last = string_of(&segs[i]);
    proof {
        assert(segs@[i as int].deep_view() =~= segs@[i as int]@);
        assert(last@ == sspec.last());
    }
    let ghost before_lex = out.deep_view();
    match shlex_split(last.as_str()) {
        Some(mut ts) => {
            let ghost tsdeep = ts.deep_view();
            out.append(&mut ts);
            proof {
                assert(out.deep_view() =~~= before_lex + tsdeep);
            }
        },
        None => {
            proof {
                assert(out.deep_view() + Seq::<Seq<char>>::empty() =~= out.deep_view());
            }
        },
    }
    proof {
        assert(before_lex =~= seq![argv.deep_view()[0]] + sspec.drop_last());
    }
    Some(out)
}

/// The final resolved configuration of one run.
pub struct Options {
    pub name: String,
    pub action: Action,
    pub engine: Engine,
    pub fzf: Option<Vec<String>>,
    pub printer: Printer,
    pub unified: usize,
}

/// The operating mode the inputs resolve to: an explicit commit request or
/// an internal patch list always commits; otherwise an internal preview
/// marker or a missing fuzzy finder previews; otherwise the finder runs.
pub open spec fn action_spec(
    commit: bool,
    has_patch: bool,
    has_preview: bool,
    fzf_off: bool,
) -> Action {
    if commit || has_patch {
        Action::Commit
    } else if has_preview || fzf_off {
        Action::Preview
    } else {
        Action::Fzf
    }
}

/// The replacement text: the one supplied, or empty, which deletes matches.
pub open spec fn replace_spec(a: Arguments) -> Seq<char> {
    match a.replace {
        Some(r) => r@,
        None => Seq::<char>::empty(),
    }
}

/// The diff context size: the one supplied, or 3.
pub open spec fn unified_spec(a: Arguments) -> usize {
    match a.unified {
        Some(u) => u,
        None => 3,
    }
}

/// Whether the engine matches the inputs: the variant chosen by exact mode,
/// carrying the resolved replacement text.
pub open spec fn engine_matches(e: Engine, a: Arguments) -> bool {
    match e {
        Engine::AhoCorasick(_, r) => a.exact && r@ == replace_spec(a),
        Engine::Regex(_, r) => !a.exact && r@ == replace_spec(a),
    }
}

/// Whether the printer matches the resolved pager: standard output exactly
/// when no pager was resolved, else that pager's subprocess with empty
/// environment overrides.
pub open spec fn printer_matches(p: Printer, m: Option<(Seq<char>, Seq<Seq<char>>)>) -> bool {
    match p {
        Printer::Stdout => m is None,
        Printer::Pager(c) => match m {
            Some(pm) => {
                &&& c.program@ == pm.0
                &&& c.arguments.deep_view() == pm.1
                &&& c.env@ == Map::<Seq<char>, String>::empty()
            },
            None => false,
        },
    }
}

/// Whether a resolved configuration is the one the inputs and surroundings
/// determine.
pub open spec fn options_matches(o: Options, a: Arguments, env: Environment) -> bool {
    &&& o.name@ == env.name@
    &&& o.unified == unified_spec(a)
    &&& engine_matches(o.engine, a)
    &&& o.fzf.deep_view() == fzf_spec(env.fzf_available, a.fzf.deep_view())
    &&& o.action == action_spec(
        a.commit,
        a.internal_patch is Some,
        a.internal_preview is Some,
        fzf_spec(env.fzf_available, a.fzf.deep_view()) is None,
    )
    &&& printer_matches(o.printer, pager_spec(a.pager.deep_view(), env.git_pager.deep_view()))
}

impl Options {
    /// Resolves the whole configuration from validated arguments and the
    /// injected surroundings. Fails exactly where the engine build fails:
    /// on a flag the chosen engine does not recognize, or on a pattern the
    /// regular-expression compiler rejects.
    pub fn new(args: Arguments, env: Environment) -> (r: Result<Options, Fail>)
        ensures
            ({
                let fs = flagset(args.pattern@, args.flags.deep_view());
                &&& args.exact ==> ((r is Ok <==> literal_flags_valid(fs)) && (r is Err
                    ==> r->Err_0 is InvalidFlags))
                &&& !args.exact ==> ({
                    let k = regex_cfg(fs);
                    &&& !regex_flags_valid(fs) ==> r is Err && r->Err_0 is InvalidFlags
                    &&& regex_flags_valid(fs) ==> ((r is Ok <==> regex_build_ok(
                        args.pattern@,
                        k.case_insensitive,
                        k.multi_line,
                        k.dot_matches_new_line,
                        k.swap_greed,
                        k.ignore_whitespace,
                    )) && (r is Err ==> r->Err_0 is PatternCompilationFailed))
                })
            }),
            r is Ok ==> options_matches(r->Ok_0, args, env),
    {
        let flagvec = resolved_flags(args.pattern.as_str(), &args.flags);
        let replace: String = match &args.replace {
            Some(s) => s.clone(),
            None => String::new(),
        };
        let engine: Engine = if args.exact {
            match p_aho_corasick(args.pattern.as_str(), &flagvec) {
                Ok(m) => Engine::AhoCorasick(m, replace),
                Err(e) => {
                    return Err(e);
                },
            }
        } else {
            match p_regex(args.pattern.as_str(), &flagvec) {
                Ok(re) => Engine::Regex(re, replace),
                Err(e) => {
                    return Err(e);
                },
            }
        };
        let fzf = fzf_resolve(env.fzf_available, &args.fzf);
        let action = if args.commit || args.internal_patch.is_some() {
            Action::Commit
        } else if args.internal_preview.is_some() || fzf.is_none() {
            Action::Preview
        } else {
            Action::Fzf
        };
        let printer = match p_pager(args.pager, env.git_pager) {
            Some(cmd) => Printer::Pager(cmd),
            None => Printer::Stdout,
        };
        let unified = match args.unified {
            Some(u) => u,
            None => 3,
        };
        Ok(Options { name: env.name, action, engine, fzf, printer, unified })
    }
}

} // verus!
