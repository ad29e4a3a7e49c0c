//! The matching engine: exactly one of a multi-literal matcher or a compiled
//! regular expression, each carrying its replacement text. Flag characters
//! are applied in order, the last occurrence winning its dimension; a flag
//! the chosen engine does not recognize aborts resolution.

use vstd::prelude::*;
use crate::errors::Fail;

verus! {

#[verifier::external_type_specification]
#[verifier::external_body]
pub struct ExRegex(regex::Regex);

/// A built multi-literal matcher, kept opaque: the matcher's type cannot be
/// declared to the verifier, since its state-identifier parameter is bound
/// by its own crate's trait.
#[verifier::external_body]
pub struct LiteralMatcher {
    inner: aho_corasick::AhoCorasick,
}

/// The compiled matcher together with the replacement text (empty text
/// deletes the match).
pub enum Engine {
    AhoCorasick(LiteralMatcher, String),
    Regex(regex::Regex, String),
}

/// The option switches a regular expression is compiled with.
#[derive(PartialEq, Eq, Structural, Clone, Copy)]
pub struct RegexConfig {
    pub case_insensitive: bool,
    pub multi_line: bool,
    pub dot_matches_new_line: bool,
    pub swap_greed: bool,
    pub ignore_whitespace: bool,
}

/// The switches before any flag is applied: every dimension off.
pub open spec fn default_config() -> RegexConfig {
    RegexConfig {
        case_insensitive: false,
        multi_line: false,
        dot_matches_new_line: false,
        swap_greed: false,
        ignore_whitespace: false,
    }
}

/// Whether the literal engine recognizes the flag character.
pub open spec fn literal_flag_char(c: char) -> bool {
    c == 'I' || c == 'i'
}

/// Whether every flag is one the literal engine recognizes.
pub open spec fn literal_flags_valid(fs: Seq<char>) -> bool {
    forall|i: int| 0 <= i < fs.len() ==> literal_flag_char(#[trigger] fs[i])
}

/// Case insensitivity after applying each flag in order to `acc`: the last
/// occurrence of `i` or `I` wins.
pub open spec fn literal_ci(fs: Seq<char>, acc: bool) -> bool
    decreases fs.len(),
{
    if fs.len() == 0 {
        acc
    } else {
        literal_ci(
            fs.drop_first(),
            if fs[0] == 'i' {
                true
            } else if fs[0] == 'I' {
                false
            } else {
                acc
            },
        )
    }
}

/// Whether the regular-expression engine recognizes the flag character.
pub open spec fn regex_flag_char(c: char) -> bool {
    c == 'I' || c == 'i' || c == 'm' || c == 's' || c == 'U' || c == 'x'
}

/// Whether every flag is one the regular-expression engine recognizes.
pub open spec fn regex_flags_valid(fs: Seq<char>) -> bool {
    forall|i: int| 0 <= i < fs.len() ==> regex_flag_char(#[trigger] fs[i])
}

/// One flag character applied to the switches: it sets its own dimension and
/// leaves the others alone.
pub open spec fn apply_flag(c: char, k: RegexConfig) -> RegexConfig {
    if c == 'I' {
        RegexConfig { case_insensitive: false, ..k }
    } else if c == 'i' {
        RegexConfig { case_insensitive: true, ..k }
    } else if c == 'm' {
        RegexConfig { multi_line: true, ..k }
    } else if c == 's' {
        RegexConfig { dot_matches_new_line: true, ..k }
    } else if c == 'U' {
        RegexConfig { swap_greed: true, ..k }
    } else if c == 'x' {
        RegexConfig { ignore_whitespace: true, ..k }
    } else {
        k
    }
}

/// The switches after applying each flag in order to `acc`.
pub open spec fn regex_fold(fs: Seq<char>, acc: RegexConfig) -> RegexConfig
    decreases fs.len(),
{
    if fs.len() == 0 {
        acc
    } else {
        regex_fold(fs.drop_first(), apply_flag(fs[0], acc))
    }
}

/// The switches the flag set resolves to.
pub open spec fn regex_cfg(fs: Seq<char>) -> RegexConfig {
    regex_fold(fs, default_config())
}

/// Resolves the literal engine's case switch from the flag set, rejecting
/// any flag the literal engine does not recognize.
pub fn literal_config(flags: &Vec<char>) -> (r: Result<bool, Fail>)
    ensures
        r is Ok <==> literal_flags_valid(flags@),
        r is Ok ==> r->Ok_0 == literal_ci(flags@, false),
        r is Err ==> r->Err_0 is InvalidFlags,
{
    let mut ci = false;
    let mut i: usize = 0;
    proof {
        assert(flags@.skip(0) =~= flags@);
    }
    while i < flags.len()
        invariant
            i <= flags.len(),
            literal_ci(flags@, false) == literal_ci(flags@.skip(i as int), ci),
            forall|j: int| 0 <= j < i ==> literal_flag_char(#[trigger] flags@[j]),
        decreases flags.len() - i,
    {
        let ghost pre = flags@.skip(i as int);
        proof {
            assert(pre[0] == flags@[i as int]);
            assert(pre.drop_first() =~= flags@.skip(i as int + 1));
        }
        let c = flags[i];
        if c == 'I' {
            ci = false;
        } else if c == 'i' {
            ci = true;
        } else {
            return Err(Fail::InvalidFlags);
        }
        i = i + 1;
    }
    proof {
        assert(flags@.skip(flags@.len() as int) =~= Seq::<char>::empty());
    }
    Ok(ci)
}

/// Resolves the regular-expression switches from the flag set, rejecting any
/// flag the regular-expression engine does not recognize.
pub fn regex_config(flags: &Vec<char>) -> (r: Result<RegexConfig, Fail>)
    ensures
        r is Ok <==> regex_flags_valid(flags@),
        r is Ok ==> r->Ok_0 == regex_cfg(flags@),
        r is Err ==> r->Err_0 is InvalidFlags,
{
    let mut k = RegexConfig {
        case_insensitive: false,
        multi_line: false,
        dot_matches_new_line: false,
        swap_greed: false,
        ignore_whitespace: false,
    };
    let mut i: usize = 0;
    proof {
        assert(flags@.skip(0) =~= flags@);
    }
    while i < flags.len()
        invariant
            i <= flags.len(),
            regex_cfg(flags@) == regex_fold(flags@.skip(i as int), k),
            forall|j: int| 0 <= j < i ==> regex_flag_char(#[trigger] flags@[j]),
        decreases flags.len() - i,
    {
        let ghost pre = flags@.skip(i as int);
        proof {
            assert(pre[0] == flags@[i as int]);
            assert(pre.drop_first() =~= flags@.skip(i as int + 1));
        }
        let c = flags[i];
        if c == 'I' {
            k.case_insensitive = false;
        } else if c == 'i' {
            k.case_insensitive = true;
        } else if c == 'm' {
            k.multi_line = true;
        } else if c == 's' {
            k.dot_matches_new_line = true;
        } else if c == 'U' {
            k.swap_greed = true;
        } else if c == 'x' {
            k.ignore_whitespace = true;
        } else {
            return Err(Fail::InvalidFlags);
        }
        i = i + 1;
    }
    proof {
        assert(flags@.skip(flags@.len() as int) =~= Seq::<char>::empty());
    }
    Ok(k)
}

/// Relies on aho_corasick::AhoCorasickBuilder (`new`, `ascii_case_insensitive`,
/// `build`): builds the multi-literal matcher over the one given pattern.
/// With the default usize state identifiers the build cannot fail; the
/// builder's own source notes that the identifier space cannot overflow.
#[verifier::external_body]
fn build_aho_corasick(pattern: &str, case_insensitive: bool) -> (r: LiteralMatcher)
{
    let mut b = aho_corasick::AhoCorasickBuilder::new();
    b.ascii_case_insensitive(case_insensitive);
    LiteralMatcher { inner: b.build(&[pattern]) }
}

/// Whether the regular-expression compiler accepts the pattern under the
/// given switches.
pub uninterp spec fn regex_build_ok(
    pattern: Seq<char>,
    case_insensitive: bool,
    multi_line: bool,
    dot_matches_new_line: bool,
    swap_greed: bool,
    ignore_whitespace: bool,
) -> bool;

/// Relies on regex::RegexBuilder (`new`, the five option setters, `build`):
/// compiles the pattern under the given switches. Success depends on the
/// pattern text and the switches alone; the error is the compiler's own.
#[verifier::external_body]
fn build_regex(pattern: &str, k: &RegexConfig) -> (r: Result<regex::Regex, regex::Error>)
    ensures
        r is Ok <==> regex_build_ok(
            pattern@,
            k.case_insensitive,
            k.multi_line,
            k.dot_matches_new_line,
            k.swap_greed,
            k.ignore_whitespace,
        ),
{
    regex::RegexBuilder::new(pattern)
        .case_insensitive(k.case_insensitive)
        .multi_line(k.multi_line)
        .dot_matches_new_line(k.dot_matches_new_line)
        .swap_greed(k.swap_greed)
        .ignore_whitespace(k.ignore_whitespace)
        .build()
}

/// Builds the literal engine's matcher, rejecting any flag outside `I`/`i`.
pub fn p_aho_corasick(pattern: &str, flags: &Vec<char>) -> (r: Result<LiteralMatcher, Fail>)
    ensures
        r is Ok <==> literal_flags_valid(flags@),
        r is Err ==> r->Err_0 is InvalidFlags,
{
    match literal_config(flags) {
        Ok(ci) => Ok(build_aho_corasick(pattern, ci)),
        Err(e) => Err(e),
    }
}

/// Compiles the regular-expression engine's matcher, rejecting any flag
/// outside `I`/`i`/`m`/`s`/`U`/`x` and wrapping a compilation failure.
pub fn p_regex(pattern: &str, flags: &Vec<char>) -> (r: Result<regex::Regex, Fail>)
    ensures
        !regex_flags_valid(flags@) ==> r is Err && r->Err_0 is InvalidFlags,
        regex_flags_valid(flags@) ==> {
            let k = regex_cfg(flags@);
            &&& (r is Ok <==> regex_build_ok(
                pattern@,
                k.case_insensitive,
                k.multi_line,
                k.dot_matches_new_line,
                k.swap_greed,
                k.ignore_whitespace,
            ))
            &&& (r is Err ==> r->Err_0 is PatternCompilationFailed)
        },
{
    match regex_config(flags) {
        Ok(k) => match build_regex(pattern, &k) {
            Ok(re) => Ok(re),
            Err(e) => Err(Fail::PatternCompilationFailed(e)),
        },
        Err(e) => Err(e),
    }
}

} // verus!
