use activity_report::quote::strip;
use activity_report::squeeze::{squeeze_fit_remove_quoted, squeeze_fit_commits_issues,
    PAIR_WORD_BUDGET};

#[test]
fn strip_drops_enclosed_lines_and_markers() {
    let text = "keep one\n```\nsecret stuff\nmore secret\n```\nkeep two";
    let out = strip(text, "```");
    assert_eq!(out, "keep one\nkeep two\n");
}

#[test]
fn strip_empty_text() {
    assert_eq!(strip("", "```"), "");
}

#[test]
fn strip_without_markers_keeps_lines() {
    let text = "line one\nline two";
    let out = strip(text, "```");
    assert_eq!(out, "line one\nline two\n");
}

#[test]
fn strip_filters_overlong_tokens() {
    let blob = "b".repeat(200);
    let text = format!("short {} tail", blob);
    let out = strip(&text, "```");
    assert_eq!(out, "short tail\n");
}

#[test]
fn strip_keeps_token_of_one_hundred_forty_nine_chars() {
    let token = "a".repeat(149);
    let text = format!("x {}", token);
    let out = strip(&text, "```");
    assert_eq!(out, format!("x {}\n", token));
}

#[test]
fn strip_odd_marker_count_drops_remainder() {
    // an unclosed marker leaves the toggle set: the rest of the text is
    // silently dropped, as inherited.
    let text = "visible\n```\nhidden one\nhidden two";
    let out = strip(text, "```");
    assert_eq!(out, "visible\n");
}

#[test]
fn strip_marker_inside_line_counts() {
    let text = "a\nmid ``` mark\nb\n``` end\nc";
    let out = strip(text, "```");
    // both marker-bearing lines vanish; the line between them is enclosed.
    assert_eq!(out, "a\nc\n");
}

#[test]
fn squeeze_fit_remove_quoted_combines_strip_and_budget() {
    let text = "one two three four five\n```\ndropped\n```\nsix seven";
    // stripped text holds 7 words; the budget of 4 with a 50% head share
    // keeps ceil(4 * 50 / 100) = 2 from the start and 2 from the end.
    let out = squeeze_fit_remove_quoted(text, "```", 4, 50);
    assert_eq!(out, "one two six seven");
}

#[test]
fn squeeze_fit_remove_quoted_within_budget_keeps_newlines() {
    let text = "one two\nthree";
    let out = squeeze_fit_remove_quoted(text, "```", 500, 60);
    assert_eq!(out, "one two\nthree\n");
}

#[test]
fn squeeze_pair_uses_shared_budget_constant() {
    assert_eq!(PAIR_WORD_BUDGET, 44_000);
    let (a, b) = squeeze_fit_commits_issues("small commit log", "tiny issues", 60);
    assert_eq!(a, "small commit log");
    assert_eq!(b, "tiny issues");
}
