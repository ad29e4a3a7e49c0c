use sad::argparse::{Action, Arguments, Environment, Options, Printer};
use sad::engine::Engine;
use sad::errors::Fail;

fn args(pattern: &str) -> Arguments {
    Arguments {
        pattern: pattern.to_string(),
        replace: None,
        nul_delim: false,
        commit: false,
        exact: false,
        flags: None,
        pager: None,
        fzf: None,
        unified: None,
        internal_preview: None,
        internal_patch: None,
        shell: None,
    }
}

fn env(fzf_available: bool) -> Environment {
    Environment {
        name: "sad".to_string(),
        fzf_available,
        git_pager: None,
    }
}

#[test]
fn commit_request_always_commits() {
    let mut a = args("x");
    a.commit = true;
    a.internal_preview = Some("marker".to_string());
    let o = Options::new(a, env(true)).unwrap();
    assert!(matches!(o.action, Action::Commit));
}

#[test]
fn internal_patch_list_commits() {
    let mut a = args("x");
    a.internal_patch = Some(vec!["p1".to_string()]);
    let o = Options::new(a, env(true)).unwrap();
    assert!(matches!(o.action, Action::Commit));
}

#[test]
fn missing_finder_forces_preview() {
    let mut a = args("x");
    a.fzf = Some("--height 40%".to_string());
    let o = Options::new(a, env(false)).unwrap();
    assert!(matches!(o.action, Action::Preview));
    assert!(o.fzf.is_none());
}

#[test]
fn internal_preview_marker_previews() {
    let mut a = args("x");
    a.internal_preview = Some("marker".to_string());
    let o = Options::new(a, env(true)).unwrap();
    assert!(matches!(o.action, Action::Preview));
}

#[test]
fn available_finder_selects_fzf_action() {
    let o = Options::new(args("x"), env(true)).unwrap();
    assert!(matches!(o.action, Action::Fzf));
    assert_eq!(o.fzf, Some(Vec::new()));
    assert_eq!(o.name, "sad");
}

#[test]
fn finder_disabled_by_never_previews() {
    let mut a = args("x");
    a.fzf = Some("never".to_string());
    let o = Options::new(a, env(true)).unwrap();
    assert!(matches!(o.action, Action::Preview));
    assert!(o.fzf.is_none());
}

#[test]
fn unified_defaults_to_three() {
    let o = Options::new(args("x"), env(true)).unwrap();
    assert_eq!(o.unified, 3);
}

#[test]
fn unified_keeps_the_given_size() {
    let mut a = args("x");
    a.unified = Some(7);
    let o = Options::new(a, env(true)).unwrap();
    assert_eq!(o.unified, 7);
}

#[test]
fn replacement_defaults_to_empty() {
    let o = Options::new(args("x"), env(true)).unwrap();
    match o.engine {
        Engine::Regex(_, r) => assert_eq!(r, ""),
        Engine::AhoCorasick(_, _) => panic!("exact mode was not requested"),
    }
}

#[test]
fn exact_mode_builds_the_literal_engine() {
    let mut a = args("x");
    a.exact = true;
    a.replace = Some("y".to_string());
    let o = Options::new(a, env(true)).unwrap();
    match o.engine {
        Engine::AhoCorasick(_, r) => assert_eq!(r, "y"),
        Engine::Regex(_, _) => panic!("exact mode was requested"),
    }
}

#[test]
fn literal_mode_rejects_regex_only_flags() {
    let mut a = args("x");
    a.exact = true;
    a.flags = Some("m".to_string());
    let r = Options::new(a, env(true));
    assert!(matches!(r, Err(Fail::InvalidFlags)));
}

#[test]
fn bad_pattern_fails_compilation() {
    let r = Options::new(args("("), env(true));
    assert!(matches!(r, Err(Fail::PatternCompilationFailed(_))));
}

#[test]
fn pager_specifier_reaches_the_printer() {
    let mut a = args("x");
    a.pager = Some("less -R | cat".to_string());
    let o = Options::new(a, env(true)).unwrap();
    match o.printer {
        Printer::Pager(cmd) => {
            assert_eq!(cmd.program, "less");
            assert_eq!(cmd.arguments, vec!["-R".to_string()]);
        }
        Printer::Stdout => panic!("a pager was specified"),
    }
}

#[test]
fn no_pager_prints_to_stdout() {
    let o = Options::new(args("x"), env(true)).unwrap();
    assert!(matches!(o.printer, Printer::Stdout));
}

#[test]
fn resolution_is_deterministic() {
    let build = || {
        let mut a = args("Needle");
        a.replace = Some("repl".to_string());
        a.flags = Some("ms".to_string());
        a.pager = Some("less -R".to_string());
        a.fzf = Some("--border".to_string());
        a.unified = Some(5);
        let mut e = env(true);
        e.git_pager = Some("more".to_string());
        Options::new(a, e).unwrap()
    };
    let o1 = build();
    let o2 = build();
    assert_eq!(o1.name, o2.name);
    assert!(matches!((&o1.action, &o2.action), (Action::Fzf, Action::Fzf)));
    assert_eq!(o1.unified, o2.unified);
    assert_eq!(o1.fzf, o2.fzf);
    match (&o1.engine, &o2.engine) {
        (Engine::Regex(_, r1), Engine::Regex(_, r2)) => assert_eq!(r1, r2),
        _ => panic!("both runs chose the regular-expression engine"),
    }
    match (&o1.printer, &o2.printer) {
        (Printer::Pager(c1), Printer::Pager(c2)) => {
            assert_eq!(c1.program, c2.program);
            assert_eq!(c1.arguments, c2.arguments);
        }
        _ => panic!("both runs resolved a pager"),
    }
}
