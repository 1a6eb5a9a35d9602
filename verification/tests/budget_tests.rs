use activity_report::budget::{fit_by_words, fit_pair_by_words};

fn word_count(s: &str) -> usize {
    s.split_whitespace().count()
}

#[test]
fn fit_by_words_within_budget_is_unchanged() {
    let text = "alpha beta gamma";
    let out = fit_by_words(text, 3, 60);
    assert_eq!(out, text);
}

#[test]
fn fit_by_words_keeps_head_and_tail() {
    // five words over a budget of three with a 60% head share:
    // head = ceil(3 * 60 / 100) = 2 words, tail = 1 word.
    let text = "one two three four five";
    let out = fit_by_words(text, 3, 60);
    assert_eq!(out, "one two five");
}

#[test]
fn fit_by_words_zero_head_share_keeps_only_tail() {
    let text = "a b c d";
    let out = fit_by_words(text, 2, 0);
    assert_eq!(out, "c d");
}

#[test]
fn fit_by_words_full_head_share_keeps_only_head() {
    let text = "a b c d";
    let out = fit_by_words(text, 2, 100);
    assert_eq!(out, "a b");
}

#[test]
fn fit_by_words_never_exceeds_budget() {
    let text = "x ".repeat(500);
    let out = fit_by_words(&text, 40, 60);
    assert!(word_count(&out) <= 40);
    assert_eq!(word_count(&out), 40);
}

#[test]
fn fit_by_words_collapses_whitespace_when_truncating() {
    let text = "one\ntwo\tthree  four five";
    let out = fit_by_words(text, 3, 60);
    assert_eq!(out, "one two five");
}

#[test]
fn fit_by_words_empty_text() {
    assert_eq!(fit_by_words("", 5, 60), "");
    assert_eq!(fit_by_words("   ", 0, 60), "   ");
}

#[test]
fn fit_by_words_zero_budget_on_nonempty_text() {
    assert_eq!(fit_by_words("a b", 0, 60), "");
}

#[test]
fn fit_pair_empty_sides() {
    let (a, b) = fit_pair_by_words("", "", 10, 60);
    assert_eq!(a, "");
    assert_eq!(b, "");
}

#[test]
fn fit_pair_within_budget_unchanged() {
    let (a, b) = fit_pair_by_words("one two", "three four", 10, 60);
    assert_eq!(a, "one two");
    assert_eq!(b, "three four");
}

#[test]
fn fit_pair_cuts_oversized_first_text() {
    // combined budget 4 with a 50% split: the first text's share is 2 words.
    let (a, b) = fit_pair_by_words("w1 w2 w3 w4", "v1 v2", 4, 50);
    assert_eq!(a, "w1 w2");
    assert_eq!(b, "v1 v2");
}

#[test]
fn fit_pair_cuts_second_text_when_first_is_within_share() {
    // first text holds 2 words, within its share of 3; the second is cut to
    // the 3 words the first leaves over.
    let (a, b) = fit_pair_by_words("w1 w2", "v1 v2 v3 v4 v5", 5, 60);
    assert_eq!(a, "w1 w2");
    assert_eq!(b, "v1 v2 v3");
    assert!(word_count(&a) + word_count(&b) <= 5);
}

#[test]
fn fit_pair_large_scenario() {
    // commits of 50,000 words and issues of 2,000 words under a combined cap
    // of 44,000 with a 60% split: commits are cut to 26,400 words and the
    // issues text is left untouched.
    let commits = "c ".repeat(50_000);
    let issues = "i ".repeat(2_000);
    let (a, b) = fit_pair_by_words(&commits, &issues, 44_000, 60);
    assert_eq!(word_count(&a), 26_400);
    assert_eq!(word_count(&b), 2_000);
    assert_eq!(b, issues);
}
