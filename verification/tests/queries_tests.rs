use activity_report::queries::{issue_query, discussion_query, involves_query, issues_search_url,
    commits_list_url, community_profile_url, readme_url, contributors_url, user_profile_url,
    comments_page_url, repos_query, repos_search_url};

#[test]
fn issue_query_with_user() {
    let q = issue_query(
        "octocat",
        "hello",
        &Some("alice".to_string()),
        "2023-08-01T00:00:00Z",
    );
    assert_eq!(q, "repo:octocat/hello is:issue involves:alice updated:>2023-08-01T00:00:00Z");
}

#[test]
fn issue_query_without_user() {
    let q = issue_query("octocat", "hello", &None, "2023-08-01T00:00:00Z");
    assert_eq!(q, "repo:octocat/hello is:issue  updated:>2023-08-01T00:00:00Z");
}

#[test]
fn discussion_query_with_user() {
    let q = discussion_query("o", "r", &Some("bob".to_string()), "2023-07-01T00:00:00Z");
    assert_eq!(q, "repo:o/r involves: bob updated:>2023-07-01T00:00:00Z");
}

#[test]
fn involves_query_shape() {
    assert_eq!(involves_query("carol", "2023-07-30T02:49:06Z"),
        "involves:carol updated:>2023-07-30T02:49:06Z");
}

#[test]
fn issues_search_url_percent_encodes_the_query() {
    let url = issues_search_url("repo:a/b is:issue", 2);
    assert_eq!(
        url,
        "https://api.github.com/search/issues?q=repo%3Aa%2Fb%20is%3Aissue&sort=updated&order=desc&page=2",
    );
}

#[test]
fn issues_search_url_agrees_with_the_encoder() {
    let q = "repo:x/y is:issue involves:alice updated:>2023";
    let url = issues_search_url(q, 7);
    let expected = format!(
        "https://api.github.com/search/issues?q={}&sort=updated&order=desc&page=7",
        urlencoding::encode(q),
    );
    assert_eq!(url, expected);
}

#[test]
fn commits_list_url_with_author() {
    let url = commits_list_url("o", "r", &Some("dev".to_string()), 3);
    assert_eq!(url, "https://api.github.com/repos/o/r/commits?author=dev&page=3");
}

#[test]
fn commits_list_url_without_author() {
    let url = commits_list_url("o", "r", &None, 1);
    assert_eq!(url, "https://api.github.com/repos/o/r/commits?&page=1");
}

#[test]
fn fixed_endpoint_urls() {
    assert_eq!(community_profile_url("o", "r"),
        "https://api.github.com/repos/o/r/community/profile");
    assert_eq!(readme_url("o", "r"), "https://api.github.com/repos/o/r/readme");
    assert_eq!(contributors_url("o", "r"), "https://api.github.com/repos/o/r/contributors");
    assert_eq!(user_profile_url("alice"), "https://api.github.com/users/alice");
}

#[test]
fn comments_page_url_appends_the_page() {
    assert_eq!(
        comments_page_url("https://api.github.com/repos/o/r/issues/7", 4),
        "https://api.github.com/repos/o/r/issues/7/comments?&page=4",
    );
}

#[test]
fn repo_search_query_and_url() {
    let q = repos_query("alice", "rust");
    assert_eq!(q, "user:alice language:rust sort:stars");
    let url = repos_search_url(&q, 1);
    let expected = format!(
        "https://api.github.com/search/repositories?q={}&page=1",
        urlencoding::encode(&q),
    );
    assert_eq!(url, expected);
}
