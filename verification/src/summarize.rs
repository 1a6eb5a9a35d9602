//! Per-item analysis support: commit patch stripping, issue and discussion
//! text assembly, prompt construction, model selection by prompt size, and
//! the capped accumulation of per-category summary blocks.

use vstd::prelude::*;
use vstd::string::StrSliceExecFns;

use crate::chain::ChatModelKind;
use crate::records::{Date, GitMemory, MemoryType, date_str_spec, format_date, dec_str,
    format_usize};
use crate::text::{lines_of, starts_with, starts_with_chars, str_chars, split_lines, views_of,
    clip_chars, chars_to_string};

verus! {

/// Character ceiling of a stripped commit patch.
pub const MAX_PATCH_CHARS: usize = 24_000;

/// Character ceiling of an assembled per-category summary block.
pub const MAX_BLOCK_CHARS: usize = 45_000;

/// Character ceiling of an assembled issue text before comments stop being
/// appended.
pub const MAX_ISSUE_TEXT_CHARS: usize = 45_000;

/// Prompts longer than this many characters go to the large-context model.
pub const LARGE_CONTEXT_THRESHOLD: usize = 12_000;

/// How many issues one report tracks before analysis stops.
pub const MAX_TRACKED_ISSUES: usize = 16;

/// How many commits one report analyzes.
pub const MAX_PROCESSED_COMMITS: usize = 20;

/// A line of a diff body that carries bracket characters, dropped inside
/// diff blocks as rendering noise.
pub open spec fn has_bracket_char(line: Seq<char>) -> bool {
    exists|k: int|
        0 <= k < line.len() && (line[k] == '[' || line[k] == ']' || line[k] == '{' || line[k]
            == '}')
}

/// Tests a line for bracket characters.
fn has_bracket(line: &Vec<char>) -> (r: bool)
    ensures
        r == has_bracket_char(line@),
{
    let mut i: usize = 0;
    while i < line.len()
        invariant
            i <= line@.len(),
            forall|k: int|
                0 <= k < i ==> !(line@[k] == '[' || line@[k] == ']' || line@[k] == '{' || line@[k]
                    == '}'),
        decreases line.len() - i,
    {
        let c = line[i];
        if c == '[' || c == ']' || c == '{' || c == '}' {
            return true;
        }
        i = i + 1;
    }
    false
}

/// One step of patch stripping: the state carries the output so far,
/// whether the scan stands inside a diff block, and whether the character
/// ceiling stopped it.
pub open spec fn patch_step(acc: Seq<char>, inside: bool, done: bool, line: Seq<char>) -> (
    Seq<char>,
    bool,
    bool,
) {
    if done {
        (acc, inside, done)
    } else if acc.len() + line.len() > MAX_PATCH_CHARS as int {
        let rem = if acc.len() <= MAX_PATCH_CHARS as int {
            MAX_PATCH_CHARS as int - acc.len()
        } else {
            0
        };
        (acc + line.take(rem), inside, true)
    } else if starts_with(line, "diff --git"@) {
        (acc + line + seq!['\n'], true, false)
    } else if inside && has_bracket_char(line) {
        (acc, inside, false)
    } else {
        (
            acc + line + seq!['\n'],
            if line.len() == 0 {
                false
            } else {
                inside
            },
            false,
        )
    }
}

/// Patch stripping folded over the first `k` lines.
pub open spec fn patch_fold(ls: Seq<Seq<char>>, k: int) -> (Seq<char>, bool, bool)
    decreases k,
{
    if k <= 0 {
        (Seq::empty(), false, false)
    } else {
        let prev = patch_fold(ls, k - 1);
        patch_step(prev.0, prev.1, prev.2, ls[k - 1])
    }
}

/// The stripped form of a commit patch: diff-block noise lines dropped,
/// capped at the character ceiling.
pub open spec fn strip_patch_spec(s: Seq<char>) -> Seq<char> {
    patch_fold(lines_of(s), lines_of(s).len() as int).0
}

/// Strips a fetched commit patch for analysis: keeps `diff --git` headers,
/// drops bracket-bearing lines inside diff blocks, and stops at the
/// character ceiling.
pub fn strip_patch(text: &str) -> (r: String)
    ensures
        r@ == strip_patch_spec(text@),
{
    let chars = str_chars(text);
    let lines = split_lines(&chars);
    let diff_marker = str_chars("diff --git");
    let ghost ls = lines_of(text@);
    proof {
        assert(views_of(lines@).len() == lines@.len());
    }
    let mut acc: Vec<char> = Vec::new();
    let mut inside = false;
    let mut done = false;
    let mut i: usize = 0;
    while i < lines.len()
        invariant
            i <= lines@.len(),
            views_of(lines@) == ls,
            diff_marker@ == "diff --git"@,
            (acc@, inside, done) == patch_fold(ls, i as int),
        decreases lines.len() - i,
    {
        let line = &lines[i];
        proof {
            assert(ls[i as int] == lines@[i as int]@);
        }
        if !done {
            if acc.len() as u128 + line.len() as u128 > MAX_PATCH_CHARS as u128 {
                let rem = if acc.len() <= MAX_PATCH_CHARS {
                    MAX_PATCH_CHARS - acc.len()
                } else {
                    0
                };
                let clipped = clip_chars(line, rem);
                crate::quote::extend_chars(&mut acc, &clipped);
                done = true;
            } else if starts_with_chars(line, &diff_marker) {
                crate::quote::extend_chars(&mut acc, line);
                acc.push('\n');
                inside = true;
            } else if inside && has_bracket(line) {
            } else {
                crate::quote::extend_chars(&mut acc, line);
                acc.push('\n');
                if line.len() == 0 {
                    inside = false;
                }
            }
        }
        i = i + 1;
    }
    chars_to_string(&acc)
}

/// The target to speak of in an item prompt: the named person, or the key
/// participants.
pub open spec fn plain_target_spec(target: Option<Seq<char>>) -> Seq<char> {
    match target {
        Some(t) => t,
        None => "key participants"@,
    }
}

/// Names the analysis target.
pub fn plain_target(target: &Option<String>) -> (r: String)
    ensures
        r@ == plain_target_spec(crate::entries::opt_view(*target)),
{
    match target {
        Some(t) => t.clone(),
        None => "key participants".to_owned(),
    }
}

/// The possessive form of the target.
pub open spec fn possessive_target_spec(target: Option<Seq<char>>) -> Seq<char> {
    match target {
        Some(t) => t + "'s"@,
        None => "key participants'"@,
    }
}

/// Names the analysis target possessively.
pub fn possessive_target(target: &Option<String>) -> (r: String)
    ensures
        r@ == possessive_target_spec(crate::entries::opt_view(*target)),
{
    match target {
        Some(t) => {
            let mut s = t.clone();
            s.append("'s");
            proof {
                assert(s@ =~= t@ + "'s"@);
            }
            s
        },
        None => "key participants'".to_owned(),
    }
}

/// Chooses the model class by prompt size: long prompts need the enlarged
/// context window.
pub fn model_for_len(text_len: usize) -> (r: ChatModelKind)
    ensures
        r is LargeContext <==> text_len > LARGE_CONTEXT_THRESHOLD,
{
    if text_len > LARGE_CONTEXT_THRESHOLD {
        ChatModelKind::LargeContext
    } else {
        ChatModelKind::Standard
    }
}

/// The opening of an assembled issue text.
pub open spec fn issue_intro_spec(
    creator: Seq<char>,
    title: Seq<char>,
    labels: Seq<char>,
    body: Seq<char>,
) -> Seq<char> {
    "User '"@ + creator + "', opened an issue titled '"@ + title + "', labeled '"@ + labels
        + "', with the following post: '"@ + body + "'."@
}

/// Assembles the opening of an issue text.
pub fn issue_intro(creator: &str, title: &str, labels: &str, body: &str) -> (r: String)
    ensures
        r@ == issue_intro_spec(creator@, title@, labels@, body@),
{
    let mut s = "User '".to_owned();
    s.append(creator);
    s.append("', opened an issue titled '");
    s.append(title);
    s.append("', labeled '");
    s.append(labels);
    s.append("', with the following post: '");
    s.append(body);
    s.append("'.");
    proof {
        assert(s@ =~= issue_intro_spec(creator@, title@, labels@, body@));
    }
    s
}

/// One comment line of an assembled issue text.
pub open spec fn comment_line_spec(commenter: Seq<char>, body: Seq<char>) -> Seq<char> {
    commenter + " commented: "@ + body
}

/// Assembles one comment line.
pub fn comment_line(commenter: &str, body: &str) -> (r: String)
    ensures
        r@ == comment_line_spec(commenter@, body@),
{
    let mut s = commenter.to_owned();
    s.append(" commented: ");
    s.append(body);
    proof {
        assert(s@ =~= comment_line_spec(commenter@, body@));
    }
    s
}

/// Appends a piece to a block unless the block has already reached the
/// cap; the piece that crosses the cap is still appended whole.
pub fn append_if_within(block: &mut String, piece: &str, cap: usize)
    ensures
        old(block)@.len() <= cap ==> final(block)@ == old(block)@ + piece@,
        old(block)@.len() > cap ==> final(block)@ == old(block)@,
{
    let len = block.as_str().unicode_len();
    if len <= cap {
        block.append(piece);
    }
}

/// One dated line of a per-category summary block.
pub open spec fn dated_line_spec(date: Date, summary: Seq<char>) -> Seq<char> {
    date_str_spec(date) + seq![' '] + summary + seq!['\n']
}

/// Builds one dated summary line.
pub fn dated_line(date: &Date, summary: &str) -> (r: String)
    ensures
        r@ == dated_line_spec(*date, summary@),
{
    let mut s = format_date(date);
    crate::text::push_char(&mut s, ' ');
    s.append(summary);
    crate::text::push_char(&mut s, '\n');
    proof {
        assert(s@ =~= dated_line_spec(*date, summary@));
    }
    s
}

/// Appends one dated summary line to a category block, unless the block
/// has already reached the block ceiling.
pub fn append_dated_summary(block: &mut String, date: &Date, summary: &str)
    ensures
        old(block)@.len() <= MAX_BLOCK_CHARS as nat ==> final(block)@ == old(block)@
            + dated_line_spec(*date, summary@),
        old(block)@.len() > MAX_BLOCK_CHARS as nat ==> final(block)@ == old(block)@,
{
    let line = dated_line(date, summary);
    append_if_within(block, line.as_str(), MAX_BLOCK_CHARS);
}

/// Whether the issue tracker of one report run is full.
pub fn issues_full(seen: usize) -> (r: bool)
    ensures
        r == (seen > MAX_TRACKED_ISSUES),
{
    seen > MAX_TRACKED_ISSUES
}

/// Whether the commit quota of one report run is spent.
pub fn commits_quota_reached(processed: usize) -> (r: bool)
    ensures
        r == (processed >= MAX_PROCESSED_COMMITS),
{
    processed >= MAX_PROCESSED_COMMITS
}

/// Closes a category block: a category that processed nothing contributes
/// nothing, and is an absence, not an error.
pub fn finish_category(block: String, processed: usize) -> (r: Option<String>)
    ensures
        r is Some <==> processed > 0,
        r matches Some(s) ==> s@ == block@,
{
    if processed == 0 {
        None
    } else {
        Some(block)
    }
}

/// The result line of one analyzed item: its URL, a space, the narrative.
pub open spec fn url_prefixed_spec(url: Seq<char>, text: Seq<char>) -> Seq<char> {
    url + seq![' '] + text
}

/// Prefixes an item's narrative with its source URL.
pub fn url_prefixed(url: &str, text: &str) -> (r: String)
    ensures
        r@ == url_prefixed_spec(url@, text@),
{
    let mut s = url.to_owned();
    crate::text::push_char(&mut s, ' ');
    s.append(text);
    proof {
        assert(s@ =~= url_prefixed_spec(url@, text@));
    }
    s
}

/// The record of one analyzed issue: attributed to the target person when
/// one is named, else to the issue's creator.
pub fn issue_record(
    target: &Option<String>,
    creator: &str,
    title: String,
    source_url: String,
    summary: String,
    date: Date,
) -> (r: GitMemory)
    ensures
        r.memory_type is Issue,
        target matches Some(t) ==> r.name@ == t@,
        target is None ==> r.name@ == creator@,
        r.tag_line@ == title@,
        r.source_url@ == source_url@,
        r.payload@ == summary@,
        r.date == date,
{
    let name = match target {
        Some(t) => t.clone(),
        None => creator.to_owned(),
    };
    GitMemory { memory_type: MemoryType::Issue, name, tag_line: title, source_url, payload: summary, date }
}

/// The correlation id of one issue's analysis.
pub open spec fn issue_chat_id_spec(number: int) -> Seq<char> {
    "issue_"@ + dec_str(number)
}

/// Builds the correlation id of one issue's analysis.
pub fn issue_chat_id(number: usize) -> (r: String)
    ensures
        r@ == issue_chat_id_spec(number as int),
{
    let mut s = "issue_".to_owned();
    let n = format_usize(number);
    s.append(n.as_str());
    proof {
        assert(s@ =~= issue_chat_id_spec(number as int));
    }
    s
}

/// The correlation id of one commit's analysis.
pub open spec fn commit_chat_id_spec(url: Seq<char>) -> Seq<char> {
    "commit-"@ + crate::support::sha_serial_spec(url)
}

/// Builds the correlation id of one commit's analysis from its URL.
pub fn commit_chat_id(url: &str) -> (r: String)
    ensures
        r@ == commit_chat_id_spec(url@),
{
    let mut s = "commit-".to_owned();
    let sha = crate::support::sha_serial(url);
    s.append(sha.as_str());
    proof {
        assert(s@ =~= commit_chat_id_spec(url@));
    }
    s
}

/// The system prompt of an issue analysis.
pub open spec fn issue_sys_prompt_spec(creator: Seq<char>, title: Seq<char>) -> Seq<char> {
    "Given the information that user '"@ + creator + "' opened an issue titled '"@ + title
        + "', your task is to deeply analyze the content of the issue posts. Distill the crux of the issue, the potential solutions suggested, and evaluate the significant contributions of the participants in resolving or progressing the discussion."@
}

/// Builds the system prompt of an issue analysis.
pub fn issue_sys_prompt(creator: &str, title: &str) -> (r: String)
    ensures
        r@ == issue_sys_prompt_spec(creator@, title@),
{
    let mut s = "Given the information that user '".to_owned();
    s.append(creator);
    s.append("' opened an issue titled '");
    s.append(title);
    s.append(
        "', your task is to deeply analyze the content of the issue posts. Distill the crux of the issue, the potential solutions suggested, and evaluate the significant contributions of the participants in resolving or progressing the discussion.",
    );
    proof {
        assert(s@ =~= issue_sys_prompt_spec(creator@, title@));
    }
    s
}

/// The user prompt of an issue analysis.
pub open spec fn issue_user_prompt_spec(all_text: Seq<char>, target: Seq<char>) -> Seq<char> {
    "Analyze the GitHub issue content: "@ + all_text
        + ". Provide a concise analysis touching upon: The central problem discussed in the issue. The main solutions proposed or agreed upon. Emphasize the role and significance of '"@
        + target
        + "' in contributing towards the resolution or progression of the discussion. Aim for a succinct, analytical summary that stays under 128 tokens."@
}

/// Builds the user prompt of an issue analysis.
pub fn issue_user_prompt(all_text: &str, target: &str) -> (r: String)
    ensures
        r@ == issue_user_prompt_spec(all_text@, target@),
{
    let mut s = "Analyze the GitHub issue content: ".to_owned();
    s.append(all_text);
    s.append(
        ". Provide a concise analysis touching upon: The central problem discussed in the issue. The main solutions proposed or agreed upon. Emphasize the role and significance of '",
    );
    s.append(target);
    s.append(
        "' in contributing towards the resolution or progression of the discussion. Aim for a succinct, analytical summary that stays under 128 tokens.",
    );
    proof {
        assert(s@ =~= issue_user_prompt_spec(all_text@, target@));
    }
    s
}

/// The system prompt of a commit analysis.
pub open spec fn commit_sys_prompt_spec(user_name: Seq<char>) -> Seq<char> {
    "Given a commit patch from the user "@ + user_name
        + ", you are to analyze its content. Focus on the core essence of the changes without delving into granular technical specifics. Particularly, identify the purpose of the changes, the files impacted, and the broader implications for the project. Remember to strike a balance between brevity and capturing the essential details."@
}

/// Builds the system prompt of a commit analysis.
pub fn commit_sys_prompt(user_name: &str) -> (r: String)
    ensures
        r@ == commit_sys_prompt_spec(user_name@),
{
    let mut s = "Given a commit patch from the user ".to_owned();
    s.append(user_name);
    s.append(
        ", you are to analyze its content. Focus on the core essence of the changes without delving into granular technical specifics. Particularly, identify the purpose of the changes, the files impacted, and the broader implications for the project. Remember to strike a balance between brevity and capturing the essential details.",
    );
    proof {
        assert(s@ =~= commit_sys_prompt_spec(user_name@));
    }
    s
}

/// The user prompt of a commit analysis.
pub open spec fn commit_user_prompt_spec(
    stripped: Seq<char>,
    tag_line: Seq<char>,
    user_name: Seq<char>,
) -> Seq<char> {
    "Analyze the commit patch: "@ + stripped + ", and its description: "@ + tag_line
        + ". Summarize the main changes, emphasizing the intent behind the modifications and their implications for the project. Ensure clarity, but avoid granular technical details. Distinguish between core code and other types of changes. Conclude with a brief evaluation of "@
        + user_name
        + "'s contributions in this commit and its potential impact on the project. Keep your response concise and under 110 tokens."@
}

/// Builds the user prompt of a commit analysis.
pub fn commit_user_prompt(stripped: &str, tag_line: &str, user_name: &str) -> (r: String)
    ensures
        r@ == commit_user_prompt_spec(stripped@, tag_line@, user_name@),
{
    let mut s = "Analyze the commit patch: ".to_owned();
    s.append(stripped);
    s.append(", and its description: ");
    s.append(tag_line);
    s.append(
        ". Summarize the main changes, emphasizing the intent behind the modifications and their implications for the project. Ensure clarity, but avoid granular technical details. Distinguish between core code and other types of changes. Conclude with a brief evaluation of ",
    );
    s.append(user_name);
    s.append(
        "'s contributions in this commit and its potential impact on the project. Keep your response concise and under 110 tokens.",
    );
    proof {
        assert(s@ =~= commit_user_prompt_spec(stripped@, tag_line@, user_name@));
    }
    s
}

/// The system prompt of a readme analysis.
pub open spec fn readme_sys_prompt_spec() -> Seq<char> {
    "Your task is to objectively analyze a GitHub profile and the README of their project. Focus on extracting factual information about the features of the project, and its stated objectives. Avoid making judgments or inferring subjective value."@
}

/// Builds the system prompt of a readme analysis.
pub fn readme_sys_prompt() -> (r: String)
    ensures
        r@ == readme_sys_prompt_spec(),
{
    "Your task is to objectively analyze a GitHub profile and the README of their project. Focus on extracting factual information about the features of the project, and its stated objectives. Avoid making judgments or inferring subjective value.".to_owned()
}

/// The user prompt of a readme analysis.
pub open spec fn readme_user_prompt_spec(content: Seq<char>) -> Seq<char> {
    "Based on the profile and README provided: "@ + content
        + ", extract a concise summary detailing this project's factual significance in its domain, their areas of expertise, and the main features and goals of the project. Ensure the insights are objective and under 110 tokens."@
}

/// Builds the user prompt of a readme analysis.
pub fn readme_user_prompt(content: &str) -> (r: String)
    ensures
        r@ == readme_user_prompt_spec(content@),
{
    let mut s = "Based on the profile and README provided: ".to_owned();
    s.append(content);
    s.append(
        ", extract a concise summary detailing this project's factual significance in its domain, their areas of expertise, and the main features and goals of the project. Ensure the insights are objective and under 110 tokens.",
    );
    proof {
        assert(s@ =~= readme_user_prompt_spec(content@));
    }
    s
}

/// The upvote note of a discussion entry: absent when no one upvoted.
pub open spec fn upvotes_piece_spec(count: u32) -> Seq<char> {
    if count > 0 {
        "Upvotes: "@ + dec_str(count as int)
    } else {
        Seq::empty()
    }
}

/// The opening of an assembled discussion text.
pub open spec fn discussion_intro_spec(
    title: Seq<char>,
    url: Seq<char>,
    body: Seq<char>,
    date: Date,
    upvotes: u32,
    author: Seq<char>,
) -> Seq<char> {
    "Title: '"@ + title + "' Url: '"@ + url + "' Body: '"@ + body + "' Created At: "@
        + date_str_spec(date) + seq![' '] + upvotes_piece_spec(upvotes) + " Author: "@ + author
        + seq!['\n']
}

/// Assembles the opening of a discussion text.
pub fn discussion_intro(
    title: &str,
    url: &str,
    body: &str,
    date: &Date,
    upvotes: u32,
    author: &str,
) -> (r: String)
    ensures
        r@ == discussion_intro_spec(title@, url@, body@, *date, upvotes, author@),
{
    let mut s = "Title: '".to_owned();
    s.append(title);
    s.append("' Url: '");
    s.append(url);
    s.append("' Body: '");
    s.append(body);
    s.append("' Created At: ");
    let ds = format_date(date);
    s.append(ds.as_str());
    crate::text::push_char(&mut s, ' ');
    if upvotes > 0 {
        s.append("Upvotes: ");
        let us = format_usize(upvotes as usize);
        s.append(us.as_str());
    }
    s.append(" Author: ");
    s.append(author);
    crate::text::push_char(&mut s, '\n');
    proof {
        assert(s@ =~= discussion_intro_spec(title@, url@, body@, *date, upvotes, author@));
    }
    s
}

/// One comment line of an assembled discussion text.
pub open spec fn discussion_comment_spec(author: Seq<char>, body: Seq<char>) -> Seq<char> {
    author + " comments: '"@ + body + "'\n"@
}

/// Assembles one discussion comment line.
pub fn discussion_comment(author: &str, body: &str) -> (r: String)
    ensures
        r@ == discussion_comment_spec(author@, body@),
{
    let mut s = author.to_owned();
    s.append(" comments: '");
    s.append(body);
    s.append("'\n");
    proof {
        assert(s@ =~= discussion_comment_spec(author@, body@));
    }
    s
}

/// The system prompt of a discussion analysis.
pub open spec fn discussion_sys_prompt_spec(target: Seq<char>) -> Seq<char> {
    "Analyze the provided GitHub discussion. Identify the main topic, actions by participants, crucial viewpoints, solutions or consensus reached, and particularly highlight the contributions of specific individuals, especially '"@
        + target + "'. Summarize without being verbose."@
}

/// Builds the system prompt of a discussion analysis.
pub fn discussion_sys_prompt(target: &str) -> (r: String)
    ensures
        r@ == discussion_sys_prompt_spec(target@),
{
    let mut s =
        "Analyze the provided GitHub discussion. Identify the main topic, actions by participants, crucial viewpoints, solutions or consensus reached, and particularly highlight the contributions of specific individuals, especially '".to_owned();
    s.append(target);
    s.append("'. Summarize without being verbose.");
    proof {
        assert(s@ =~= discussion_sys_prompt_spec(target@));
    }
    s
}

/// The user prompt of a discussion analysis.
pub open spec fn discussion_user_prompt_spec(texts: Seq<char>, target: Seq<char>) -> Seq<char> {
    "Analyze the content: "@ + texts
        + ". Briefly summarize the central topic, participants' actions, primary viewpoints, and outcomes. Emphasize the role of '"@
        + target
        + "' in driving the discussion or reaching a resolution. Aim for a succinct summary that is rich in analysis and under 192 tokens."@
}

/// Builds the user prompt of a discussion analysis.
pub fn discussion_user_prompt(texts: &str, target: &str) -> (r: String)
    ensures
        r@ == discussion_user_prompt_spec(texts@, target@),
{
    let mut s = "Analyze the content: ".to_owned();
    s.append(texts);
    s.append(
        ". Briefly summarize the central topic, participants' actions, primary viewpoints, and outcomes. Emphasize the role of '",
    );
    s.append(target);
    s.append(
        "' in driving the discussion or reaching a resolution. Aim for a succinct summary that is rich in analysis and under 192 tokens.",
    );
    proof {
        assert(s@ =~= discussion_user_prompt_spec(texts@, target@));
    }
    s
}

/// When both the fetched description and the readme summary are empty
/// there is nothing to describe; otherwise each empty side borrows the
/// other's text.
pub fn resolve_profile_texts(description: String, payload: String) -> (r: Option<(String, String)>)
    ensures
        r is Some <==> (description@.len() > 0 || payload@.len() > 0),
        r matches Some(p) ==> {
            &&& p.0@ == (if description@.len() > 0 {
                description@
            } else {
                payload@
            })
            &&& p.1@ == (if payload@.len() > 0 {
                payload@
            } else {
                description@
            })
        },
{
    let d_empty = description.as_str().is_empty();
    let p_empty = payload.as_str().is_empty();
    if d_empty && p_empty {
        None
    } else if d_empty {
        Some((payload.clone(), payload))
    } else if p_empty {
        Some((description.clone(), description))
    } else {
        Some((description, payload))
    }
}

} // verus!
