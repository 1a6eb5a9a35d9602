//! The correlation stage: merges the per-category summary blocks into one
//! bounded prompt and prepares the final two-call chain whose reply is the
//! weekly narrative.  Failure never propagates upward: the report text
//! degrades to a fixed fallback line.

use vstd::prelude::*;
use vstd::string::StrSliceExecFns;

use crate::allocate::{SourceSet, assembled_spec, assemble_prompt, TOTAL_BUDGET_UNITS};
use crate::chain::ChatChain;
use crate::summarize::{possessive_target_spec, possessive_target};
use crate::text::take_chars;

verus! {

/// The fixed text a report degrades to when correlation fails or no
/// category held data.
pub open spec fn fallback_report_spec() -> Seq<char> {
    "Failed to generate report."@
}

/// The fixed fallback report text.
pub fn fallback_report() -> (r: String)
    ensures
        r@ == fallback_report_spec(),
{
    "Failed to generate report.".to_owned()
}

/// Output ceiling of the first correlation call.
pub const CORRELATE_MAX_OUT_1: u16 = 512;

/// Output ceiling of the second, summarizing correlation call.
pub const CORRELATE_MAX_OUT_2: u16 = 256;

/// Turns the four per-category texts into the allocator's source set: an
/// empty category is an absence and is excluded from allocation entirely.
pub fn build_sources(
    profile: String,
    commits: String,
    issues: String,
    discussions: String,
) -> (r: SourceSet)
    ensures
        r.profile is Some <==> profile@.len() > 0,
        r.commits is Some <==> commits@.len() > 0,
        r.issues is Some <==> issues@.len() > 0,
        r.discussions is Some <==> discussions@.len() > 0,
        r.profile matches Some(t) ==> t@ == profile@,
        r.commits matches Some(t) ==> t@ == commits@,
        r.issues matches Some(t) ==> t@ == issues@,
        r.discussions matches Some(t) ==> t@ == discussions@,
{
    let p = if profile.as_str().is_empty() {
        None
    } else {
        Some(profile)
    };
    let c = if commits.as_str().is_empty() {
        None
    } else {
        Some(commits)
    };
    let i = if issues.as_str().is_empty() {
        None
    } else {
        Some(issues)
    };
    let d = if discussions.as_str().is_empty() {
        None
    } else {
        Some(discussions)
    };
    SourceSet { profile: p, commits: c, issues: i, discussions: d }
}

/// Whether any activity category brought data worth correlating.
pub fn has_report_data(commits: &str, issues: &str, discussions: &str) -> (r: bool)
    ensures
        r == (commits@.len() > 0 || issues@.len() > 0 || discussions@.len() > 0),
{
    !commits.is_empty() || !issues.is_empty() || !discussions.is_empty()
}

/// The final report text: the narrative when correlation produced one, the
/// fixed fallback when it failed or when no category held data.
pub open spec fn report_text_spec(has_data: bool, outcome: Option<Seq<char>>) -> Seq<char> {
    if !has_data {
        fallback_report_spec()
    } else {
        match outcome {
            Some(s) => s,
            None => fallback_report_spec(),
        }
    }
}

/// Closes a report: absorbs correlation failure into the fallback text.
pub fn final_report(has_data: bool, outcome: Option<String>) -> (r: String)
    ensures
        r@ == report_text_spec(has_data, crate::entries::opt_view(outcome)),
{
    if !has_data {
        return fallback_report();
    }
    match outcome {
        Some(s) => s,
        None => fallback_report(),
    }
}

/// With every category empty the report is the fixed fallback text,
/// whatever the correlation stage would have replied.
pub proof fn lemma_empty_report_is_fallback(outcome: Option<Seq<char>>)
    ensures
        report_text_spec(false, outcome) == fallback_report_spec(),
{
}

/// The system prompt of the cross-source correlation.
pub open spec fn weekly_sys_prompt_spec() -> Seq<char> {
    "Analyze the GitHub activity data and profile data over the week to detect both key impactful contributions and connections between commits, issues, and discussions. Highlight specific code changes, resolutions, and improvements. Furthermore, trace evidence of commits addressing specific issues, discussions leading to commits, or issues spurred by discussions. The aim is to map out both the impactful technical advancements and the developmental narrative of the project."@
}

/// The first user prompt of the cross-source correlation, over the
/// assembled source prompt.
pub open spec fn weekly_user_prompt_1_spec(assembled: Seq<char>, target: Option<Seq<char>>)
    -> Seq<char> {
    "From "@ + assembled + ", detail "@ + possessive_target_spec(target)
        + " significant technical contributions. Enumerate individual tasks, code enhancements, and bug resolutions, emphasizing impactful contributions. Concurrently, identify connections: commits that appear to resolve specific issues, discussions that may have catalyzed certain commits, or issues influenced by preceding discussions. Extract tangible instances showcasing both impact and interconnections within the week."@
}

/// The second user prompt of the cross-source correlation.
pub open spec fn weekly_user_prompt_2_spec(target: Option<Seq<char>>) -> Seq<char> {
    "Merge the identified impactful technical contributions and their interconnections into a coherent summary for "@
        + possessive_target_spec(target)
        + " over the week. Describe how these contributions align with the project's technical objectives. Pinpoint recurring technical patterns or trends and shed light on the synergy between individual efforts and their collective progression. Detail both the weight of each contribution and their interconnectedness in shaping the project. Limit to 256 tokens."@
}

/// Prepares the final cross-source chain: the present categories are
/// allocated their budget shares, assembled into one bounded prompt, and
/// wrapped in the two correlation prompts.
pub fn weekly_report_chain(sources: &SourceSet, target: &Option<String>) -> (r: ChatChain)
    ensures
        r.phase is Pending,
        r.system_prompt@ == weekly_sys_prompt_spec(),
        r.user_prompt_1@ == weekly_user_prompt_1_spec(
            assembled_spec(*sources, TOTAL_BUDGET_UNITS as int),
            crate::entries::opt_view(*target),
        ),
        r.max_out_1 == CORRELATE_MAX_OUT_1,
        r.user_prompt_2@ == weekly_user_prompt_2_spec(crate::entries::opt_view(*target)),
        r.max_out_2 == CORRELATE_MAX_OUT_2,
        r.correlation_id@ == "correlate-99"@,
{
    let assembled = assemble_prompt(sources, TOTAL_BUDGET_UNITS);
    let tgt = possessive_target(target);
    let sys = "Analyze the GitHub activity data and profile data over the week to detect both key impactful contributions and connections between commits, issues, and discussions. Highlight specific code changes, resolutions, and improvements. Furthermore, trace evidence of commits addressing specific issues, discussions leading to commits, or issues spurred by discussions. The aim is to map out both the impactful technical advancements and the developmental narrative of the project.".to_owned();
    let mut u1 = "From ".to_owned();
    u1.append(assembled.as_str());
    u1.append(", detail ");
    u1.append(tgt.as_str());
    u1.append(
        " significant technical contributions. Enumerate individual tasks, code enhancements, and bug resolutions, emphasizing impactful contributions. Concurrently, identify connections: commits that appear to resolve specific issues, discussions that may have catalyzed certain commits, or issues influenced by preceding discussions. Extract tangible instances showcasing both impact and interconnections within the week.",
    );
    let mut u2 =
        "Merge the identified impactful technical contributions and their interconnections into a coherent summary for ".to_owned();
    u2.append(tgt.as_str());
    u2.append(
        " over the week. Describe how these contributions align with the project's technical objectives. Pinpoint recurring technical patterns or trends and shed light on the synergy between individual efforts and their collective progression. Detail both the weight of each contribution and their interconnectedness in shaping the project. Limit to 256 tokens.",
    );
    proof {
        assert(u1@ =~= weekly_user_prompt_1_spec(
            assembled_spec(*sources, TOTAL_BUDGET_UNITS as int),
            crate::entries::opt_view(*target),
        ));
        assert(u2@ =~= weekly_user_prompt_2_spec(crate::entries::opt_view(*target)));
    }
    ChatChain::new(
        sys,
        u1,
        CORRELATE_MAX_OUT_1,
        u2,
        CORRELATE_MAX_OUT_2,
        "correlate-99".to_owned(),
    )
}

/// The system prompt of the commit/issue correlation.
pub open spec fn pair_sys_prompt_spec() -> Seq<char> {
    "Your task is to identify the 1-3 most impactful contributions by a specific user, based on the given commit logs and issue records. Pay close attention to any sequential relationships between issues and commits, and consider how they reflect the user's growth and evolution within the project. Use this data to evaluate the user's overall influence on the project's development. Provide a concise summary in bullet-point format."@
}

/// The first user prompt of the commit/issue correlation, over the two
/// budgeted texts.
pub open spec fn pair_user_prompt_1_spec(commits: Seq<char>, issues: Seq<char>) -> Seq<char> {
    "Given the commit logs: "@ + commits + " and issue records: "@ + issues
        + ", identify the most significant contributions made by the user. Look for patterns and sequences of events that indicate the user's growth and how they approached problem-solving. Consider major code changes, and initiatives that had substantial impact on the project. Additionally, note any instances where the resolution of an issue led to a specific commit."@
}

/// The second user prompt of the commit/issue correlation.
pub open spec fn pair_user_prompt_2_spec() -> Seq<char> {
    "Based on the contributions identified, create a concise bullet-point summary. Highlight the user's key contributions and their influence on the project. Pay attention to their growth over time, and how their responses to issues evolved. Make sure to reference any interconnected events between issues and commits. Avoid replicating phrases from the source data and focus on providing a unique and insightful narrative. Please ensure your answer stayed below 256 tokens."@
}

/// Head share, in percent, of the shared word budget offered to the commit
/// text when the pair must be squeezed.
pub const PAIR_SPLIT_PERCENT: usize = 60;

/// Prepares the commit/issue correlation chain: both texts are first
/// budgeted against their shared word budget.
pub fn correlate_commits_issues_chain(commits_summary: &str, issues_summary: &str) -> (r:
    ChatChain)
    ensures
        r.phase is Pending,
        r.system_prompt@ == pair_sys_prompt_spec(),
        ({
            let fitted = crate::budget::fit_pair_spec(
                commits_summary@,
                issues_summary@,
                crate::squeeze::PAIR_WORD_BUDGET as int,
                PAIR_SPLIT_PERCENT as int,
            );
            r.user_prompt_1@ == pair_user_prompt_1_spec(fitted.0, fitted.1)
        }),
        r.max_out_1 == CORRELATE_MAX_OUT_1,
        r.user_prompt_2@ == pair_user_prompt_2_spec(),
        r.max_out_2 == CORRELATE_MAX_OUT_2,
        r.correlation_id@ == "correlate-99"@,
{
    let (commits_fit, issues_fit) = crate::squeeze::squeeze_fit_commits_issues(
        commits_summary,
        issues_summary,
        PAIR_SPLIT_PERCENT,
    );
    let sys = "Your task is to identify the 1-3 most impactful contributions by a specific user, based on the given commit logs and issue records. Pay close attention to any sequential relationships between issues and commits, and consider how they reflect the user's growth and evolution within the project. Use this data to evaluate the user's overall influence on the project's development. Provide a concise summary in bullet-point format.".to_owned();
    let mut u1 = "Given the commit logs: ".to_owned();
    u1.append(commits_fit.as_str());
    u1.append(" and issue records: ");
    u1.append(issues_fit.as_str());
    u1.append(
        ", identify the most significant contributions made by the user. Look for patterns and sequences of events that indicate the user's growth and how they approached problem-solving. Consider major code changes, and initiatives that had substantial impact on the project. Additionally, note any instances where the resolution of an issue led to a specific commit.",
    );
    let u2 =
        "Based on the contributions identified, create a concise bullet-point summary. Highlight the user's key contributions and their influence on the project. Pay attention to their growth over time, and how their responses to issues evolved. Make sure to reference any interconnected events between issues and commits. Avoid replicating phrases from the source data and focus on providing a unique and insightful narrative. Please ensure your answer stayed below 256 tokens.".to_owned();
    proof {
        assert(u1@ =~= pair_user_prompt_1_spec(commits_fit@, issues_fit@));
    }
    ChatChain::new(
        sys,
        u1,
        CORRELATE_MAX_OUT_1,
        u2,
        CORRELATE_MAX_OUT_2,
        "correlate-99".to_owned(),
    )
}

/// Character caps of the five inputs to the newcomer correlation.
pub const HOME_REPO_CAP: usize = 6_000;

/// Character cap of the user profile input.
pub const USER_PROFILE_CAP: usize = 4_000;

/// Character cap of the issues input.
pub const ISSUES_DATA_CAP: usize = 9_000;

/// Character cap of the repositories input.
pub const REPOS_DATA_CAP: usize = 6_000;

/// Character cap of the discussions input.
pub const DISCUSSION_DATA_CAP: usize = 4_000;

/// Cuts a text to at most `n` characters.
pub fn truncate_chars(s: &str, n: usize) -> (r: String)
    ensures
        r@ == take_chars(s@, n as int),
{
    let chars = crate::text::str_chars(s);
    let clipped = crate::text::clip_chars(&chars, n);
    crate::text::chars_to_string(&clipped)
}

/// The system prompt of the newcomer correlation.
pub open spec fn home_sys_prompt_spec() -> Seq<char> {
    "First, let's analyze and understand the provided Github data in a step-by-step manner. Begin by evaluating the user's activity based on their most active repositories, languages used, issues they're involved in, and discussions they've participated in. Concurrently, grasp the characteristics and requirements of the home project. Your aim is to identify overlaps or connections between the user's skills or activities and the home project's needs."@
}

/// The first user prompt of the newcomer correlation, over the five capped
/// texts.
pub open spec fn home_user_prompt_1_spec(
    user_profile: Seq<char>,
    repos_data: Seq<char>,
    issues_data: Seq<char>,
    discussion_data: Seq<char>,
    home_repo_data: Seq<char>,
) -> Seq<char> {
    "Using a structured approach, analyze the given data: User Profile: "@ + user_profile
        + " Active Repositories: "@ + repos_data + " Issues Involved: "@ + issues_data
        + " Discussions Participated: "@ + discussion_data + " Home project's characteristics: "@
        + home_repo_data
        + " Identify patterns in the user's activity and spot potential synergies with the home project. Pay special attention to the programming languages they use, especially if they align with the home project's requirements. Derive insights from their interactions and the data provided."@
}

/// The second user prompt of the newcomer correlation.
pub open spec fn home_user_prompt_2_spec() -> Seq<char> {
    "Now, using the insights from your step-by-step analysis, craft a concise bullet-point summary that underscores: - The user's main areas of expertise and interest. - The relevance of their preferred languages or technologies to the home project. - Their potential contributions to the home project, based on their skills and interactions. Ensure the summary is clear, insightful, and remains under 256 tokens. Emphasize any evident alignments between the user's skills and the project's needs."@
}

/// Prepares the newcomer correlation chain, capping each of the five data
/// sources to its character budget first.
pub fn correlate_user_and_home_chain(
    home_repo_data: &str,
    user_profile: &str,
    issues_data: &str,
    repos_data: &str,
    discussion_data: &str,
) -> (r: ChatChain)
    ensures
        r.phase is Pending,
        r.system_prompt@ == home_sys_prompt_spec(),
        r.user_prompt_1@ == home_user_prompt_1_spec(
            take_chars(user_profile@, USER_PROFILE_CAP as int),
            take_chars(repos_data@, REPOS_DATA_CAP as int),
            take_chars(issues_data@, ISSUES_DATA_CAP as int),
            take_chars(discussion_data@, DISCUSSION_DATA_CAP as int),
            take_chars(home_repo_data@, HOME_REPO_CAP as int),
        ),
        r.max_out_1 == CORRELATE_MAX_OUT_1,
        r.user_prompt_2@ == home_user_prompt_2_spec(),
        r.max_out_2 == CORRELATE_MAX_OUT_2,
        r.correlation_id@ == "correlate-user-home"@,
{
    let home = truncate_chars(home_repo_data, HOME_REPO_CAP);
    let profile = truncate_chars(user_profile, USER_PROFILE_CAP);
    let issues = truncate_chars(issues_data, ISSUES_DATA_CAP);
    let repos = truncate_chars(repos_data, REPOS_DATA_CAP);
    let discussions = truncate_chars(discussion_data, DISCUSSION_DATA_CAP);
    let sys = "First, let's analyze and understand the provided Github data in a step-by-step manner. Begin by evaluating the user's activity based on their most active repositories, languages used, issues they're involved in, and discussions they've participated in. Concurrently, grasp the characteristics and requirements of the home project. Your aim is to identify overlaps or connections between the user's skills or activities and the home project's needs.".to_owned();
    let mut u1 = "Using a structured approach, analyze the given data: User Profile: ".to_owned();
    u1.append(profile.as_str());
    u1.append(" Active Repositories: ");
    u1.append(repos.as_str());
    u1.append(" Issues Involved: ");
    u1.append(issues.as_str());
    u1.append(" Discussions Participated: ");
    u1.append(discussions.as_str());
    u1.append(" Home project's characteristics: ");
    u1.append(home.as_str());
    u1.append(
        " Identify patterns in the user's activity and spot potential synergies with the home project. Pay special attention to the programming languages they use, especially if they align with the home project's requirements. Derive insights from their interactions and the data provided.",
    );
    let u2 =
        "Now, using the insights from your step-by-step analysis, craft a concise bullet-point summary that underscores: - The user's main areas of expertise and interest. - The relevance of their preferred languages or technologies to the home project. - Their potential contributions to the home project, based on their skills and interactions. Ensure the summary is clear, insightful, and remains under 256 tokens. Emphasize any evident alignments between the user's skills and the project's needs.".to_owned();
    proof {
        assert(u1@ =~= home_user_prompt_1_spec(
            take_chars(user_profile@, USER_PROFILE_CAP as int),
            take_chars(repos_data@, REPOS_DATA_CAP as int),
            take_chars(issues_data@, ISSUES_DATA_CAP as int),
            take_chars(discussion_data@, DISCUSSION_DATA_CAP as int),
            take_chars(home_repo_data@, HOME_REPO_CAP as int),
        ));
    }
    ChatChain::new(
        sys,
        u1,
        CORRELATE_MAX_OUT_1,
        u2,
        CORRELATE_MAX_OUT_2,
        "correlate-user-home".to_owned(),
    )
}

} // verus!
