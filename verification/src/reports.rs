//! Progress and status texts of one report request, and the meta record of
//! the repository under report.  The delivery layer only sends what these
//! functions assemble.

use vstd::prelude::*;

use crate::records::{Date, GitMemory, MemoryType, dec_str, format_usize};
use crate::text::{join_sep, str_views, join_strings};

verus! {

/// The storage key under which contributor sets live when the caller names
/// none.
pub fn store_key_or_default(key: Option<String>) -> (r: String)
    ensures
        key matches Some(k) ==> r@ == k@,
        key is None ==> r@ == "contributors"@,
{
    match key {
        Some(k) => k,
        None => "contributors".to_owned(),
    }
}

/// The `owner/repo` name of a repository.
pub open spec fn repo_name_spec(owner: Seq<char>, repo: Seq<char>) -> Seq<char> {
    owner + "/"@ + repo
}

/// Builds the `owner/repo` name.
pub fn repo_name(owner: &str, repo: &str) -> (r: String)
    ensures
        r@ == repo_name_spec(owner@, repo@),
{
    let mut s = owner.to_owned();
    s.append("/");
    s.append(repo);
    proof {
        assert(s@ =~= repo_name_spec(owner@, repo@));
    }
    s
}

/// The meta record of the repository under report.
pub fn meta_record(
    owner: &str,
    repo: &str,
    description: String,
    source_url: String,
    payload: String,
    date: Date,
) -> (r: GitMemory)
    ensures
        r.memory_type is Meta,
        r.name@ == repo_name_spec(owner@, repo@),
        r.tag_line@ == description@,
        r.source_url@ == source_url@,
        r.payload@ == payload@,
        r.date == date,
{
    GitMemory {
        memory_type: MemoryType::Meta,
        name: repo_name(owner, repo),
        tag_line: description,
        source_url,
        payload,
        date,
    }
}

/// The opening line of the profile block: what the repository is about.
pub open spec fn about_message_spec(
    owner: Seq<char>,
    repo: Seq<char>,
    payload: Seq<char>,
) -> Seq<char> {
    "About "@ + owner + "/"@ + repo + ": "@ + payload
}

/// Builds the profile block's opening line.
pub fn about_message(owner: &str, repo: &str, payload: &str) -> (r: String)
    ensures
        r@ == about_message_spec(owner@, repo@, payload@),
{
    let mut s = "About ".to_owned();
    s.append(owner);
    s.append("/");
    s.append(repo);
    s.append(": ");
    s.append(payload);
    proof {
        assert(s@ =~= about_message_spec(owner@, repo@, payload@));
    }
    s
}

/// Whose contributions the report will speak of.
pub fn addressee(user: &Option<String>) -> (r: String)
    ensures
        user matches Some(u) ==> r@ == u@ + "'s"@,
        user is None ==> r@ == "key community participants'"@,
{
    match user {
        Some(u) => {
            let mut s = u.clone();
            s.append("'s");
            proof {
                assert(s@ =~= u@ + "'s"@);
            }
            s
        },
        None => "key community participants'".to_owned(),
    }
}

/// The placeholder report shown when no category brought data.
pub fn placeholder_message(user: &Option<String>) -> (r: String)
    ensures
        user matches Some(u) ==> r@ == "No useful data found for "@ + u@
            + ", you may try `/search` to find out more about "@ + u@,
        user is None ==> r@ == "No useful data found, nothing to report"@,
{
    match user {
        Some(u) => {
            let mut s = "No useful data found for ".to_owned();
            s.append(u.as_str());
            s.append(", you may try `/search` to find out more about ");
            s.append(u.as_str());
            proof {
                assert(s@ =~= "No useful data found for "@ + u@
                    + ", you may try `/search` to find out more about "@ + u@);
            }
            s
        },
        None => "No useful data found, nothing to report".to_owned(),
    }
}

/// The progress note sent while the report is being explored.
pub open spec fn exploring_message_spec(
    addressee: Seq<char>,
    owner: Seq<char>,
    repo: Seq<char>,
) -> Seq<char> {
    "exploring "@ + addressee + " GitHub contributions to `"@ + owner + "/"@ + repo + "` project"@
}

/// Builds the exploration progress note.
pub fn exploring_message(addressee: &str, owner: &str, repo: &str) -> (r: String)
    ensures
        r@ == exploring_message_spec(addressee@, owner@, repo@),
{
    let mut s = "exploring ".to_owned();
    s.append(addressee);
    s.append(" GitHub contributions to `");
    s.append(owner);
    s.append("/");
    s.append(repo);
    s.append("` project");
    proof {
        assert(s@ =~= exploring_message_spec(addressee@, owner@, repo@));
    }
    s
}

/// A found-items progress message: the count, then each item reference on
/// its own line.
pub open spec fn found_items_spec(
    label: Seq<char>,
    count: int,
    refs: Seq<Seq<char>>,
) -> Seq<char> {
    "found "@ + dec_str(count) + seq![' '] + label + ":\n"@ + join_sep(refs, "\n"@)
}

/// Builds a found-items progress message.
pub fn found_items_message(label: &str, count: usize, refs: &Vec<String>) -> (r: String)
    ensures
        r@ == found_items_spec(label@, count as int, str_views(refs@)),
{
    let mut s = "found ".to_owned();
    let c = format_usize(count);
    s.append(c.as_str());
    crate::text::push_char(&mut s, ' ');
    s.append(label);
    s.append(":\n");
    let joined = join_strings(refs, "\n");
    s.append(joined.as_str());
    proof {
        assert(s@ =~= found_items_spec(label@, count as int, str_views(refs@)));
    }
    s
}

/// The discussions progress message.
pub open spec fn discussions_message_spec(count: int, refs: Seq<Seq<char>>) -> Seq<char> {
    dec_str(count) + " discussions were referenced in analysis:\n "@ + join_sep(refs, "\n"@)
}

/// Builds the discussions progress message.
pub fn discussions_message(count: usize, refs: &Vec<String>) -> (r: String)
    ensures
        r@ == discussions_message_spec(count as int, str_views(refs@)),
{
    let mut s = format_usize(count);
    s.append(" discussions were referenced in analysis:\n ");
    let joined = join_strings(refs, "\n");
    s.append(joined.as_str());
    proof {
        assert(s@ =~= discussions_message_spec(count as int, str_views(refs@)));
    }
    s
}

/// The note sent when the named user has not contributed code.
pub open spec fn not_contributor_spec(
    user: Seq<char>,
    owner: Seq<char>,
    repo: Seq<char>,
) -> Seq<char> {
    user + " hasn't contributed code to "@ + owner + "/"@ + repo
        + ". Bot will try to find out "@ + user + "'s other contributions."@
}

/// Builds the not-a-contributor note.
pub fn not_contributor_message(user: &str, owner: &str, repo: &str) -> (r: String)
    ensures
        r@ == not_contributor_spec(user@, owner@, repo@),
{
    let mut s = user.to_owned();
    s.append(" hasn't contributed code to ");
    s.append(owner);
    s.append("/");
    s.append(repo);
    s.append(". Bot will try to find out ");
    s.append(user);
    s.append("'s other contributions.");
    proof {
        assert(s@ =~= not_contributor_spec(user@, owner@, repo@));
    }
    s
}

/// The note sent when no user was named.
pub open spec fn no_user_message_spec(owner: Seq<char>, repo: Seq<char>) -> Seq<char> {
    "You didn't input a user's name. Bot will then create a report on the weekly progress of "@
        + owner + "/"@ + repo + "."@
}

/// Builds the no-user note.
pub fn no_user_message(owner: &str, repo: &str) -> (r: String)
    ensures
        r@ == no_user_message_spec(owner@, repo@),
{
    let mut s =
        "You didn't input a user's name. Bot will then create a report on the weekly progress of ".to_owned();
    s.append(owner);
    s.append("/");
    s.append(repo);
    s.append(".");
    proof {
        assert(s@ =~= no_user_message_spec(owner@, repo@));
    }
    s
}

/// The reply sent for an invalid or private repository.
pub fn invalid_repo_message() -> (r: String)
    ensures
        r@ == "You've entered invalid owner/repo, or the target is private. Please try again."@,
{
    "You've entered invalid owner/repo, or the target is private. Please try again.".to_owned()
}

/// The delivered report: the collected progress parts and the narrative,
/// one per line.
pub fn assemble_report(parts: &Vec<String>) -> (r: String)
    ensures
        r@ == join_sep(str_views(parts@), "\n"@),
{
    join_strings(parts, "\n")
}

} // verus!
