use sad::fzf::fzf_resolve;
use sad::pager::p_pager;

#[test]
fn pager_never_means_stdout() {
    assert!(p_pager(Some("never".to_string()), None).is_none());
}

#[test]
fn pager_takes_first_pipeline_segment() {
    let r = p_pager(Some("less -R | cat".to_string()), None);
    match r {
        Some(cmd) => {
            assert_eq!(cmd.program, "less");
            assert_eq!(cmd.arguments, vec!["-R".to_string()]);
        }
        None => panic!("a pager was specified"),
    }
}

#[test]
fn pager_falls_back_to_environment_value() {
    let r = p_pager(None, Some("more".to_string()));
    match r {
        Some(cmd) => {
            assert_eq!(cmd.program, "more");
            assert!(cmd.arguments.is_empty());
        }
        None => panic!("the fallback pager was given"),
    }
}

#[test]
fn pager_explicit_value_wins_over_environment() {
    let r = p_pager(Some("bat -p".to_string()), Some("more".to_string()));
    match r {
        Some(cmd) => {
            assert_eq!(cmd.program, "bat");
            assert_eq!(cmd.arguments, vec!["-p".to_string()]);
        }
        None => panic!("a pager was specified"),
    }
}

#[test]
fn pager_absent_everywhere_means_stdout() {
    assert!(p_pager(None, None).is_none());
}

#[test]
fn pager_blank_specifier_means_stdout() {
    assert!(p_pager(Some("   ".to_string()), None).is_none());
}

#[test]
fn pager_environment_never_means_stdout() {
    assert!(p_pager(None, Some("never".to_string())).is_none());
}

#[test]
fn pager_pipe_only_specifier_means_stdout() {
    assert!(p_pager(Some(" | cat".to_string()), None).is_none());
}

#[test]
fn fzf_unavailable_is_none_whatever_the_specifier() {
    assert!(fzf_resolve(false, &None).is_none());
    assert!(fzf_resolve(false, &Some("--height 40%".to_string())).is_none());
}

#[test]
fn fzf_available_never_disables() {
    assert!(fzf_resolve(true, &Some("never".to_string())).is_none());
}

#[test]
fn fzf_available_without_specifier_is_empty_list() {
    let r = fzf_resolve(true, &None);
    match r {
        Some(v) => assert!(v.is_empty()),
        None => panic!("the finder was available"),
    }
}

#[test]
fn fzf_available_specifier_tokenizes_on_whitespace() {
    let r = fzf_resolve(true, &Some("--height 40%  --border".to_string()));
    match r {
        Some(v) => assert_eq!(
            v,
            vec!["--height".to_string(), "40%".to_string(), "--border".to_string()]
        ),
        None => panic!("the finder was available"),
    }
}
