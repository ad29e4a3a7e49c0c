use sad::engine::{literal_config, p_aho_corasick, p_regex, regex_config};
use sad::errors::Fail;
use sad::flags::{p_auto_flags, resolved_flags};

#[test]
fn auto_flags_uppercase() {
    assert_eq!(p_auto_flags("aBc"), vec!['I']);
}

#[test]
fn auto_flags_lowercase() {
    assert_eq!(p_auto_flags("abc"), vec!['i']);
}

#[test]
fn auto_flags_empty_pattern() {
    assert_eq!(p_auto_flags(""), vec!['i']);
}

#[test]
fn auto_flags_unicode_uppercase() {
    assert_eq!(p_auto_flags("grüßE"), vec!['I']);
}

#[test]
fn resolved_flags_appends_user_flags_in_order() {
    assert_eq!(
        resolved_flags("abc", &Some("mIi".to_string())),
        vec!['i', 'm', 'I', 'i']
    );
}

#[test]
fn resolved_flags_without_user_flags() {
    assert_eq!(resolved_flags("ABC", &None), vec!['I']);
}

#[test]
fn literal_engine_rejects_foreign_flag() {
    let r = p_aho_corasick("x", &vec!['i', 'm']);
    assert!(matches!(r, Err(Fail::InvalidFlags)));
}

#[test]
fn literal_engine_accepts_case_flags() {
    let r = p_aho_corasick("x", &vec!['I', 'i', 'I']);
    assert!(r.is_ok());
}

#[test]
fn literal_config_last_flag_wins() {
    let r = literal_config(&vec!['I', 'i']);
    assert!(matches!(r, Ok(true)));
    let r = literal_config(&vec!['i', 'I']);
    assert!(matches!(r, Ok(false)));
}

#[test]
fn regex_engine_rejects_foreign_flag() {
    let r = p_regex("x", &vec!['z']);
    assert!(matches!(r, Err(Fail::InvalidFlags)));
}

#[test]
fn regex_engine_accepts_all_known_flags() {
    let r = p_regex("a.b", &vec!['I', 'i', 'm', 's', 'U', 'x']);
    assert!(r.is_ok());
}

#[test]
fn regex_engine_wraps_bad_pattern() {
    let r = p_regex("(", &Vec::new());
    assert!(matches!(r, Err(Fail::PatternCompilationFailed(_))));
}

#[test]
fn regex_config_last_flag_wins() {
    let r = regex_config(&vec!['i', 'I', 'm']);
    match r {
        Ok(k) => {
            assert!(!k.case_insensitive);
            assert!(k.multi_line);
            assert!(!k.dot_matches_new_line);
            assert!(!k.swap_greed);
            assert!(!k.ignore_whitespace);
        }
        Err(_) => panic!("valid flags were rejected"),
    }
}

#[test]
fn regex_config_sets_each_dimension() {
    let r = regex_config(&vec!['s', 'U', 'x', 'i']);
    match r {
        Ok(k) => {
            assert!(k.case_insensitive);
            assert!(!k.multi_line);
            assert!(k.dot_matches_new_line);
            assert!(k.swap_greed);
            assert!(k.ignore_whitespace);
        }
        Err(_) => panic!("valid flags were rejected"),
    }
}
