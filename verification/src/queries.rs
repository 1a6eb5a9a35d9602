//! Search queries and request URLs, built exactly.  The fetch layer only
//! sends what these functions assemble.

use vstd::prelude::*;

use crate::records::dec_str;
use crate::support::url_encoded_of;

verus! {

/// The issue search query for a repository and time window, optionally
/// narrowed to issues involving one user.
pub open spec fn issue_query_spec(
    owner: Seq<char>,
    repo: Seq<char>,
    user: Option<Seq<char>>,
    since: Seq<char>,
) -> Seq<char> {
    "repo:"@ + owner + "/"@ + repo + " is:issue "@ + (if user is Some {
        "involves:"@ + user.unwrap()
    } else {
        Seq::empty()
    }) + " updated:>"@ + since
}

/// Builds the issue search query.
pub fn issue_query(owner: &str, repo: &str, user: &Option<String>, since: &str) -> (r: String)
    ensures
        r@ == issue_query_spec(
            owner@,
            repo@,
            match user {
                Some(u) => Some(u@),
                None => None,
            },
            since@,
        ),
{
    let mut s = "repo:".to_owned();
    s.append(owner);
    s.append("/");
    s.append(repo);
    s.append(" is:issue ");
    match user {
        Some(u) => {
            s.append("involves:");
            s.append(u.as_str());
        },
        None => {},
    }
    s.append(" updated:>");
    s.append(since);
    proof {
        assert(s@ =~= issue_query_spec(
            owner@,
            repo@,
            match user {
                Some(u) => Some(u@),
                None => None,
            },
            since@,
        ));
    }
    s
}

/// The discussion search query for a repository and time window.
pub open spec fn discussion_query_spec(
    owner: Seq<char>,
    repo: Seq<char>,
    user: Option<Seq<char>>,
    since: Seq<char>,
) -> Seq<char> {
    "repo:"@ + owner + "/"@ + repo + (if user is Some {
        " involves: "@ + user.unwrap()
    } else {
        Seq::empty()
    }) + " updated:>"@ + since
}

/// Builds the discussion search query.
pub fn discussion_query(owner: &str, repo: &str, user: &Option<String>, since: &str) -> (r:
    String)
    ensures
        r@ == discussion_query_spec(
            owner@,
            repo@,
            match user {
                Some(u) => Some(u@),
                None => None,
            },
            since@,
        ),
{
    let mut s = "repo:".to_owned();
    s.append(owner);
    s.append("/");
    s.append(repo);
    match user {
        Some(u) => {
            s.append(" involves: ");
            s.append(u.as_str());
        },
        None => {},
    }
    s.append(" updated:>");
    s.append(since);
    proof {
        assert(s@ =~= discussion_query_spec(
            owner@,
            repo@,
            match user {
                Some(u) => Some(u@),
                None => None,
            },
            since@,
        ));
    }
    s
}

/// The query that finds what a user was involved in since a date.
pub open spec fn involves_query_spec(user: Seq<char>, since: Seq<char>) -> Seq<char> {
    "involves:"@ + user + " updated:>"@ + since
}

/// Builds the user-involvement search query.
pub fn involves_query(user: &str, since: &str) -> (r: String)
    ensures
        r@ == involves_query_spec(user@, since@),
{
    let mut s = "involves:".to_owned();
    s.append(user);
    s.append(" updated:>");
    s.append(since);
    proof {
        assert(s@ =~= involves_query_spec(user@, since@));
    }
    s
}

/// The issue search URL for one result page, query percent-encoded.
pub open spec fn issues_search_url_spec(query: Seq<char>, page: int) -> Seq<char> {
    "https://api.github.com/search/issues?q="@ + url_encoded_of(query)
        + "&sort=updated&order=desc&page="@ + dec_str(page)
}

/// Builds the issue search URL for one result page.
pub fn issues_search_url(query: &str, page: usize) -> (r: String)
    ensures
        r@ == issues_search_url_spec(query@, page as int),
{
    let mut s = "https://api.github.com/search/issues?q=".to_owned();
    let encoded = crate::support::url_encode(query);
    s.append(encoded.as_str());
    s.append("&sort=updated&order=desc&page=");
    let p = crate::records::format_usize(page);
    s.append(p.as_str());
    proof {
        assert(s@ =~= issues_search_url_spec(query@, page as int));
    }
    s
}

/// The commit listing URL for a repository page, optionally narrowed to one
/// author.
pub open spec fn commits_list_url_spec(
    owner: Seq<char>,
    repo: Seq<char>,
    user: Option<Seq<char>>,
    page: int,
) -> Seq<char> {
    "https://api.github.com/repos/"@ + owner + "/"@ + repo + "/commits?"@ + (if user is Some {
        "author="@ + user.unwrap()
    } else {
        Seq::empty()
    }) + "&page="@ + dec_str(page)
}

/// Builds the commit listing URL for one result page.
pub fn commits_list_url(owner: &str, repo: &str, user: &Option<String>, page: usize) -> (r:
    String)
    ensures
        r@ == commits_list_url_spec(
            owner@,
            repo@,
            match user {
                Some(u) => Some(u@),
                None => None,
            },
            page as int,
        ),
{
    let mut s = "https://api.github.com/repos/".to_owned();
    s.append(owner);
    s.append("/");
    s.append(repo);
    s.append("/commits?");
    match user {
        Some(u) => {
            s.append("author=");
            s.append(u.as_str());
        },
        None => {},
    }
    s.append("&page=");
    let p = crate::records::format_usize(page);
    s.append(p.as_str());
    proof {
        assert(s@ =~= commits_list_url_spec(
            owner@,
            repo@,
            match user {
                Some(u) => Some(u@),
                None => None,
            },
            page as int,
        ));
    }
    s
}

/// The community-profile endpoint of a repository.
pub open spec fn community_profile_url_spec(owner: Seq<char>, repo: Seq<char>) -> Seq<char> {
    "https://api.github.com/repos/"@ + owner + "/"@ + repo + "/community/profile"@
}

/// Builds the community-profile URL.
pub fn community_profile_url(owner: &str, repo: &str) -> (r: String)
    ensures
        r@ == community_profile_url_spec(owner@, repo@),
{
    let mut s = "https://api.github.com/repos/".to_owned();
    s.append(owner);
    s.append("/");
    s.append(repo);
    s.append("/community/profile");
    proof {
        assert(s@ =~= community_profile_url_spec(owner@, repo@));
    }
    s
}

/// The readme endpoint of a repository.
pub open spec fn readme_url_spec(owner: Seq<char>, repo: Seq<char>) -> Seq<char> {
    "https://api.github.com/repos/"@ + owner + "/"@ + repo + "/readme"@
}

/// Builds the readme URL.
pub fn readme_url(owner: &str, repo: &str) -> (r: String)
    ensures
        r@ == readme_url_spec(owner@, repo@),
{
    let mut s = "https://api.github.com/repos/".to_owned();
    s.append(owner);
    s.append("/");
    s.append(repo);
    s.append("/readme");
    proof {
        assert(s@ =~= readme_url_spec(owner@, repo@));
    }
    s
}

/// The contributors endpoint of a repository.
pub open spec fn contributors_url_spec(owner: Seq<char>, repo: Seq<char>) -> Seq<char> {
    "https://api.github.com/repos/"@ + owner + "/"@ + repo + "/contributors"@
}

/// Builds the contributors URL.
pub fn contributors_url(owner: &str, repo: &str) -> (r: String)
    ensures
        r@ == contributors_url_spec(owner@, repo@),
{
    let mut s = "https://api.github.com/repos/".to_owned();
    s.append(owner);
    s.append("/");
    s.append(repo);
    s.append("/contributors");
    proof {
        assert(s@ =~= contributors_url_spec(owner@, repo@));
    }
    s
}

/// The profile endpoint of a user.
pub open spec fn user_profile_url_spec(user: Seq<char>) -> Seq<char> {
    "https://api.github.com/users/"@ + user
}

/// Builds the user profile URL.
pub fn user_profile_url(user: &str) -> (r: String)
    ensures
        r@ == user_profile_url_spec(user@),
{
    let mut s = "https://api.github.com/users/".to_owned();
    s.append(user);
    proof {
        assert(s@ =~= user_profile_url_spec(user@));
    }
    s
}

/// The comments endpoint of an issue, one result page.
pub open spec fn comments_page_url_spec(issue_url: Seq<char>, page: int) -> Seq<char> {
    issue_url + "/comments?&page="@ + dec_str(page)
}

/// Builds an issue's comment listing URL for one result page.
pub fn comments_page_url(issue_url: &str, page: usize) -> (r: String)
    ensures
        r@ == comments_page_url_spec(issue_url@, page as int),
{
    let mut s = issue_url.to_owned();
    s.append("/comments?&page=");
    let p = crate::records::format_usize(page);
    s.append(p.as_str());
    proof {
        assert(s@ =~= comments_page_url_spec(issue_url@, page as int));
    }
    s
}

/// The repository search query for a user and language, sorted by stars.
pub open spec fn repos_query_spec(user: Seq<char>, language: Seq<char>) -> Seq<char> {
    "user:"@ + user + " language:"@ + language + " sort:stars"@
}

/// Builds the repository search query.
pub fn repos_query(user: &str, language: &str) -> (r: String)
    ensures
        r@ == repos_query_spec(user@, language@),
{
    let mut s = "user:".to_owned();
    s.append(user);
    s.append(" language:");
    s.append(language);
    s.append(" sort:stars");
    proof {
        assert(s@ =~= repos_query_spec(user@, language@));
    }
    s
}

/// The repository search URL for one result page, query percent-encoded.
pub open spec fn repos_search_url_spec(query: Seq<char>, page: int) -> Seq<char> {
    "https://api.github.com/search/repositories?q="@ + url_encoded_of(query) + "&page="@ + dec_str(
        page,
    )
}

/// Builds the repository search URL for one result page.
pub fn repos_search_url(query: &str, page: usize) -> (r: String)
    ensures
        r@ == repos_search_url_spec(query@, page as int),
{
    let mut s = "https://api.github.com/search/repositories?q=".to_owned();
    let encoded = crate::support::url_encode(query);
    s.append(encoded.as_str());
    s.append("&page=");
    let p = crate::records::format_usize(page);
    s.append(p.as_str());
    proof {
        assert(s@ =~= repos_search_url_spec(query@, page as int));
    }
    s
}

} // verus!
