use auto_commit::sanitize::sanitize;

#[test]
fn double_quotes_around_a_message_are_removed() {
    assert_eq!(sanitize("\"feat(x): add y\""), "feat(x): add y");
}

#[test]
fn single_quotes_around_a_message_are_removed() {
    assert_eq!(sanitize("'fix(api): handle null'"), "fix(api): handle null");
}

#[test]
fn whitespace_around_the_quotes_is_removed_with_them() {
    assert_eq!(sanitize("  \n\"docs: update readme\"\t\r\n"), "docs: update readme");
}

#[test]
fn whitespace_just_inside_the_quotes_is_removed() {
    assert_eq!(sanitize("\"  chore: bump deps \""), "chore: bump deps");
}

#[test]
fn only_one_layer_of_quotes_is_removed() {
    assert_eq!(sanitize("\"\"feat: x\"\""), "\"feat: x\"");
    assert_eq!(sanitize("\"'feat: x'\""), "'feat: x'");
    assert_eq!(sanitize("'\"feat: x\"'"), "\"feat: x\"");
}

#[test]
fn quotes_that_do_not_match_stay() {
    assert_eq!(sanitize("\"feat: x'"), "\"feat: x'");
    assert_eq!(sanitize("'feat: x\""), "'feat: x\"");
}

#[test]
fn a_quote_at_one_end_only_stays() {
    assert_eq!(sanitize("'tis fixed"), "'tis fixed");
    assert_eq!(sanitize("say \"hi\""), "say \"hi\"");
}

#[test]
fn a_lone_quote_stays() {
    assert_eq!(sanitize("\""), "\"");
    assert_eq!(sanitize(" ' "), "'");
}

#[test]
fn a_pair_of_quotes_around_nothing_leaves_nothing() {
    assert_eq!(sanitize("\"\""), "");
    assert_eq!(sanitize("''"), "");
    assert_eq!(sanitize("\"   \""), "");
}

#[test]
fn a_message_without_quotes_is_only_trimmed() {
    assert_eq!(sanitize("feat(x): add y"), "feat(x): add y");
    assert_eq!(sanitize("  feat(x): add y\n"), "feat(x): add y");
    assert_eq!(sanitize("feat: say \"hi\" twice"), "feat: say \"hi\" twice");
}

#[test]
fn nothing_but_whitespace_leaves_nothing() {
    assert_eq!(sanitize(""), "");
    assert_eq!(sanitize(" \t\n"), "");
}

#[test]
fn curly_quotes_are_not_straight_quotes() {
    assert_eq!(sanitize("\u{201c}feat: x\u{201d}"), "\u{201c}feat: x\u{201d}");
}

#[test]
fn a_message_in_other_scripts_is_kept_whole() {
    assert_eq!(sanitize("\u{3000}\"修正: 日本語\"\u{a0}"), "修正: 日本語");
}
