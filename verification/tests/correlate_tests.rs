use activity_report::allocate::SourceSet;
use activity_report::chain::ChainFailure;
use activity_report::correlate::{fallback_report, final_report, has_report_data, build_sources,
    weekly_report_chain, correlate_commits_issues_chain, correlate_user_and_home_chain,
    truncate_chars};

#[test]
fn all_categories_empty_yield_the_fallback() {
    // with nothing to correlate the report is the fixed fallback string,
    // not an error and not an empty text.
    assert!(!has_report_data("", "", ""));
    assert_eq!(final_report(false, None), "Failed to generate report.");
    assert_eq!(final_report(false, Some("anything".to_string())), "Failed to generate report.");
}

#[test]
fn chain_failure_degrades_to_the_fallback() {
    assert_eq!(final_report(true, None), fallback_report());
}

#[test]
fn successful_correlation_is_the_report() {
    assert_eq!(final_report(true, Some("the weekly narrative".to_string())),
        "the weekly narrative");
}

#[test]
fn one_category_suffices() {
    assert!(has_report_data("commits happened", "", ""));
    assert!(has_report_data("", "", "a discussion"));
}

#[test]
fn empty_categories_become_absent_sources() {
    let s = build_sources(
        "profile".to_string(),
        String::new(),
        "issues".to_string(),
        String::new(),
    );
    assert!(s.profile.is_some());
    assert!(s.commits.is_none());
    assert!(s.issues.is_some());
    assert!(s.discussions.is_none());
}

#[test]
fn weekly_chain_carries_the_assembled_sources() {
    let s = SourceSet {
        profile: None,
        commits: Some("commit block".to_string()),
        issues: Some("issue block".to_string()),
        discussions: None,
    };
    let chain = weekly_report_chain(&s, &Some("alice".to_string()));
    assert!(chain.user_prompt_1.contains("commit logs: commit block"));
    assert!(chain.user_prompt_1.contains("issue posts: issue block"));
    assert!(!chain.user_prompt_1.contains("profile data:"));
    assert!(chain.user_prompt_1.contains("detail alice's significant"));
    assert_eq!(chain.correlation_id, "correlate-99");
    assert_eq!(chain.max_out_1, 512);
    assert_eq!(chain.max_out_2, 256);
}

#[test]
fn pair_chain_budgets_its_inputs() {
    let chain = correlate_commits_issues_chain("small commits", "small issues");
    assert!(chain.user_prompt_1.contains("Given the commit logs: small commits"));
    assert!(chain.user_prompt_1.contains("and issue records: small issues"));
    assert_eq!(chain.correlation_id, "correlate-99");
}

#[test]
fn newcomer_chain_caps_each_source() {
    let long = "h".repeat(10_000);
    let chain = correlate_user_and_home_chain(&long, "profile", "issues", "repos", "talk");
    // the home-repo text is capped at 6,000 characters inside the prompt.
    assert!(!chain.user_prompt_1.contains(&long));
    assert!(chain.user_prompt_1.contains(&"h".repeat(6_000)));
    assert_eq!(chain.correlation_id, "correlate-user-home");
}

#[test]
fn truncate_chars_cuts_at_the_cap() {
    assert_eq!(truncate_chars("abcdef", 4), "abcd");
    assert_eq!(truncate_chars("ab", 4), "ab");
}

#[test]
fn degenerate_and_provider_failures_both_fall_back() {
    for f in [ChainFailure::ProviderError, ChainFailure::DegenerateOutput] {
        let _ = f;
        assert_eq!(final_report(true, None), "Failed to generate report.");
    }
}
