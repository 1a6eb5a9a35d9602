use activity_report::records::Date;
use activity_report::summarize::{strip_patch, dated_line, append_dated_summary, append_if_within,
    issue_intro, comment_line, issues_full, commits_quota_reached, finish_category, issue_record,
    commit_chat_id, issue_chat_id, model_for_len, plain_target, possessive_target,
    resolve_profile_texts, discussion_intro, MAX_BLOCK_CHARS};
use activity_report::chain::ChatModelKind;

#[test]
fn strip_patch_keeps_headers_and_drops_bracket_noise() {
    let patch = "diff --git a/x b/x\n+let v = [1, 2];\n+plain line\n\nafter block [ok]";
    let out = strip_patch(patch);
    // the bracket-bearing line inside the diff block vanishes; the empty
    // line closes the block, so the later bracket line survives.
    assert_eq!(out, "diff --git a/x b/x\n+plain line\n\nafter block [ok]\n");
}

#[test]
fn strip_patch_caps_output_length() {
    let line = "y".repeat(1000);
    let mut patch = String::new();
    for _ in 0..30 {
        patch.push_str(&line);
        patch.push('\n');
    }
    let out = strip_patch(&patch);
    assert!(out.chars().count() <= 24_001);
}

#[test]
fn dated_line_shape() {
    let d = Date { year: 2023, month: 8, day: 7 };
    assert_eq!(dated_line(&d, "did a thing"), "2023-08-07 did a thing\n");
}

#[test]
fn block_append_respects_the_cap() {
    let d = Date { year: 2023, month: 8, day: 7 };
    let mut block = String::new();
    append_dated_summary(&mut block, &d, "first");
    assert_eq!(block, "2023-08-07 first\n");
    let mut full = "z".repeat(MAX_BLOCK_CHARS + 1);
    let before = full.clone();
    append_dated_summary(&mut full, &d, "ignored");
    assert_eq!(full, before);
}

#[test]
fn append_if_within_cap_boundary() {
    let mut s = "ab".to_string();
    append_if_within(&mut s, "cd", 2);
    assert_eq!(s, "abcd");
    append_if_within(&mut s, "ef", 3);
    assert_eq!(s, "abcd");
}

#[test]
fn issue_intro_shape() {
    let out = issue_intro("alice", "crash on start", "bug, p1", "it crashes");
    assert_eq!(
        out,
        "User 'alice', opened an issue titled 'crash on start', labeled 'bug, p1', with the following post: 'it crashes'.",
    );
}

#[test]
fn comment_line_shape() {
    assert_eq!(comment_line("bob", "try this"), "bob commented: try this");
}

#[test]
fn tracking_limits() {
    assert!(!issues_full(16));
    assert!(issues_full(17));
    assert!(!commits_quota_reached(19));
    assert!(commits_quota_reached(20));
}

#[test]
fn empty_category_contributes_nothing() {
    // zero analyzed items is an absence, not an error: the category simply
    // vanishes from the correlation stage.
    assert!(finish_category(String::new(), 0).is_none());
    assert_eq!(finish_category("text".to_string(), 3).unwrap(), "text");
}

#[test]
fn issue_record_attribution() {
    let d = Date { year: 2023, month: 8, day: 1 };
    let gm = issue_record(
        &Some("carol".to_string()),
        "creator",
        "title".to_string(),
        "url".to_string(),
        "summary".to_string(),
        d,
    );
    assert_eq!(gm.name, "carol");
    let gm2 = issue_record(
        &None,
        "creator",
        "title".to_string(),
        "url".to_string(),
        "summary".to_string(),
        d,
    );
    assert_eq!(gm2.name, "creator");
}

#[test]
fn correlation_ids() {
    assert_eq!(commit_chat_id("https://github.com/o/r/commit/deadbeef99"), "commit-deadb");
    assert_eq!(issue_chat_id(42), "issue_42");
}

#[test]
fn model_choice_by_length() {
    assert!(matches!(model_for_len(12_000), ChatModelKind::Standard));
    assert!(matches!(model_for_len(12_001), ChatModelKind::LargeContext));
}

#[test]
fn target_naming() {
    assert_eq!(plain_target(&Some("dev".to_string())), "dev");
    assert_eq!(plain_target(&None), "key participants");
    assert_eq!(possessive_target(&Some("dev".to_string())), "dev's");
    assert_eq!(possessive_target(&None), "key participants'");
}

#[test]
fn profile_texts_borrow_each_other() {
    assert!(resolve_profile_texts(String::new(), String::new()).is_none());
    let (d, p) = resolve_profile_texts("desc".to_string(), String::new()).unwrap();
    assert_eq!((d.as_str(), p.as_str()), ("desc", "desc"));
    let (d2, p2) = resolve_profile_texts(String::new(), "summary".to_string()).unwrap();
    assert_eq!((d2.as_str(), p2.as_str()), ("summary", "summary"));
    let (d3, p3) = resolve_profile_texts("desc".to_string(), "summary".to_string()).unwrap();
    assert_eq!((d3.as_str(), p3.as_str()), ("desc", "summary"));
}

#[test]
fn discussion_intro_shape() {
    let d = Date { year: 2023, month: 7, day: 15 };
    let out = discussion_intro("Topic", "https://x", "body text", &d, 3, "dana");
    assert_eq!(
        out,
        "Title: 'Topic' Url: 'https://x' Body: 'body text' Created At: 2023-07-15 Upvotes: 3 Author: dana\n",
    );
    let out0 = discussion_intro("Topic", "https://x", "b", &d, 0, "dana");
    assert_eq!(out0, "Title: 'Topic' Url: 'https://x' Body: 'b' Created At: 2023-07-15  Author: dana\n");
}
