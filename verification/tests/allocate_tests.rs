use activity_report::allocate::{SourceSet, allocations, assemble_prompt, TOTAL_BUDGET_UNITS};

fn set_of(
    profile: Option<&str>,
    commits: Option<&str>,
    issues: Option<&str>,
    discussions: Option<&str>,
) -> SourceSet {
    SourceSet {
        profile: profile.map(|s| s.to_string()),
        commits: commits.map(|s| s.to_string()),
        issues: issues.map(|s| s.to_string()),
        discussions: discussions.map(|s| s.to_string()),
    }
}

#[test]
fn two_equal_sources_split_the_budget_evenly() {
    // only commits and issues present, weights 4 and 4 over 16,000 units:
    // each side gets exactly 8,000 units.
    let s = set_of(None, Some("c"), Some("i"), None);
    let (p, c, i, d) = allocations(&s, TOTAL_BUDGET_UNITS);
    assert_eq!(p, 0);
    assert_eq!(c, 8_000);
    assert_eq!(i, 8_000);
    assert_eq!(d, 0);
}

#[test]
fn all_sources_present_split_by_weight() {
    let s = set_of(Some("p"), Some("c"), Some("i"), Some("d"));
    let (p, c, i, d) = allocations(&s, TOTAL_BUDGET_UNITS);
    assert_eq!(p, 16_000 / 11);
    assert_eq!(c, 16_000 * 4 / 11);
    assert_eq!(i, 16_000 * 4 / 11);
    assert_eq!(d, 16_000 * 2 / 11);
    let sum = p + c + i + d;
    assert!(sum <= TOTAL_BUDGET_UNITS);
    assert!(TOTAL_BUDGET_UNITS - sum < 4);
}

#[test]
fn absent_sources_never_reach_the_prompt() {
    let s = set_of(None, Some("commit text"), Some("issue text"), None);
    let prompt = assemble_prompt(&s, TOTAL_BUDGET_UNITS);
    assert!(prompt.contains("commit logs: commit text"));
    assert!(prompt.contains("issue posts: issue text"));
    assert!(!prompt.contains("profile data:"));
    assert!(!prompt.contains("discussion posts:"));
}

#[test]
fn assembled_prompt_follows_fixed_order() {
    let s = set_of(Some("pp"), Some("cc"), Some("ii"), Some("dd"));
    let prompt = assemble_prompt(&s, TOTAL_BUDGET_UNITS);
    assert_eq!(prompt, "profile data: pp commit logs: cc issue posts: ii discussion posts: dd");
}

#[test]
fn allocation_truncates_long_sources_to_their_characters() {
    // a lone source takes the whole budget: 16,000 units at 3 characters
    // per unit admits 48,000 characters.
    let long = "x".repeat(60_000);
    let s = set_of(None, Some(&long), None, None);
    let prompt = assemble_prompt(&s, TOTAL_BUDGET_UNITS);
    assert_eq!(prompt.len(), "commit logs: ".len() + 48_000);
}

#[test]
fn no_sources_yield_an_empty_prompt() {
    let s = set_of(None, None, None, None);
    let prompt = assemble_prompt(&s, TOTAL_BUDGET_UNITS);
    assert_eq!(prompt, "");
}
