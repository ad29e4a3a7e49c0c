use sad::argparse::reconstruct_args;

fn argv(parts: &[&str]) -> Vec<String> {
    parts.iter().map(|s| s.to_string()).collect()
}

#[test]
fn reconstruct_rebuilds_from_delimited_blob() {
    let r = reconstruct_args(&argv(&["sad", "-c", "--exact\u{4}bar baz"]));
    assert_eq!(r, Some(argv(&["sad", "--exact", "bar", "baz"])));
}

#[test]
fn reconstruct_keeps_every_leading_segment_literal() {
    let blob = ["sad", "--exact", "foo", "bar baz"].join("\u{4}");
    let r = reconstruct_args(&argv(&["sad", "-c", &blob]));
    assert_eq!(
        r,
        Some(argv(&["sad", "sad", "--exact", "foo", "bar", "baz"]))
    );
}

#[test]
fn reconstruct_ignores_ordinary_argument_lists() {
    assert_eq!(reconstruct_args(&argv(&["sad", "foo", "bar"])), None);
    assert_eq!(reconstruct_args(&argv(&["sad", "-c"])), None);
    assert_eq!(reconstruct_args(&argv(&["sad"])), None);
}

#[test]
fn reconstruct_shell_lexes_the_last_segment() {
    let r = reconstruct_args(&argv(&["sad", "-c", "x\u{4}'a b' c"]));
    assert_eq!(r, Some(argv(&["sad", "x", "a b", "c"])));
}

#[test]
fn reconstruct_drops_an_unlexable_last_segment() {
    let r = reconstruct_args(&argv(&["sad", "-c", "x\u{4}'unclosed"]));
    assert_eq!(r, Some(argv(&["sad", "x"])));
}

#[test]
fn reconstruct_single_segment_blob_is_all_shell_lexed() {
    let r = reconstruct_args(&argv(&["sad", "-c", "a b c"]));
    assert_eq!(r, Some(argv(&["sad", "a", "b", "c"])));
}
