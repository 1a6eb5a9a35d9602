//! Text entries assembled from fetched records: user profile lines,
//! repository lines, and issue search results.  Optional fields vanish
//! entirely when absent; present fields carry a fixed label.

use vstd::prelude::*;

use crate::records::{Date, date_str_spec, format_date, dec_str, format_usize};
use crate::support::{clip_head_tail, clip_head_tail_spec};
use crate::text::{join_sep, str_views, join_strings};

verus! {

/// A labelled optional field: `label`, the value, and a trailing comma, or
/// nothing at all.
pub open spec fn field_piece(label: Seq<char>, v: Option<Seq<char>>) -> Seq<char> {
    if v is Some {
        label + v.unwrap() + seq![',']
    } else {
        Seq::empty()
    }
}

/// The view of an optional string.
pub open spec fn opt_view(v: Option<String>) -> Option<Seq<char>> {
    match v {
        Some(s) => Some(s@),
        None => None,
    }
}

/// Appends a labelled optional field to the output.
fn push_field(out: &mut String, label: &str, v: &Option<String>)
    ensures
        final(out)@ == old(out)@ + field_piece(label@, opt_view(*v)),
{
    match v {
        Some(s) => {
            out.append(label);
            out.append(s.as_str());
            crate::text::push_char(out, ',');
            proof {
                assert(out@ =~= old(out)@ + field_piece(label@, opt_view(*v)));
            }
        },
        None => {
            proof {
                assert(out@ =~= old(out)@ + field_piece(label@, opt_view(*v)));
            }
        },
    }
}

/// The optional fields of one fetched user.
pub struct UserFields {
    pub name: Option<String>,
    pub login: Option<String>,
    pub url: Option<String>,
    pub twitter: Option<String>,
    pub bio: Option<String>,
    pub company: Option<String>,
    pub location: Option<String>,
    pub created_at: Option<Date>,
    pub email: Option<String>,
}

/// The bio field: dropped when absent or empty.
pub open spec fn bio_piece(bio: Option<String>) -> Seq<char> {
    match bio {
        Some(b) => {
            if b@.len() == 0 {
                Seq::empty()
            } else {
                field_piece("Bio: "@, Some(b@))
            }
        },
        None => Seq::empty(),
    }
}

/// The creation-date field.
pub open spec fn created_piece(d: Option<Date>) -> Seq<char> {
    match d {
        Some(date) => "Created At: "@ + date_str_spec(date) + seq![','],
        None => Seq::empty(),
    }
}

/// The email field, without a trailing comma.
pub open spec fn email_piece(email: Option<String>) -> Seq<char> {
    match email {
        Some(e) => "Email: "@ + e@,
        None => Seq::empty(),
    }
}

/// One user's profile line: each present field labelled, absent fields
/// leaving only their separating space.
pub open spec fn user_entry_spec(f: UserFields) -> Seq<char> {
    field_piece("Name: "@, opt_view(f.name)) + seq![' '] + field_piece("Login: "@, opt_view(f.login))
        + seq![' '] + field_piece("Url: "@, opt_view(f.url)) + seq![' '] + field_piece(
        "Twitter: "@,
        opt_view(f.twitter),
    ) + seq![' '] + bio_piece(f.bio) + seq![' '] + field_piece("Company: "@, opt_view(f.company))
        + seq![' '] + field_piece("Location: "@, opt_view(f.location)) + seq![' '] + created_piece(
        f.created_at,
    ) + seq![' '] + email_piece(f.email) + seq!['\n']
}

/// Formats one user's profile line.
pub fn format_user_entry(f: &UserFields) -> (r: String)
    ensures
        r@ == user_entry_spec(*f),
{
    let mut out = String::new();
    let ghost mut expected = Seq::<char>::empty();
    proof {
        assert(out@ =~= expected);
    }
    push_field(&mut out, "Name: ", &f.name);
    crate::text::push_char(&mut out, ' ');
    proof {
        expected = expected + field_piece("Name: "@, opt_view(f.name)) + seq![' '];
        assert(out@ =~= expected);
    }
    push_field(&mut out, "Login: ", &f.login);
    crate::text::push_char(&mut out, ' ');
    proof {
        expected = expected + field_piece("Login: "@, opt_view(f.login)) + seq![' '];
        assert(out@ =~= expected);
    }
    push_field(&mut out, "Url: ", &f.url);
    crate::text::push_char(&mut out, ' ');
    proof {
        expected = expected + field_piece("Url: "@, opt_view(f.url)) + seq![' '];
        assert(out@ =~= expected);
    }
    push_field(&mut out, "Twitter: ", &f.twitter);
    crate::text::push_char(&mut out, ' ');
    proof {
        expected = expected + field_piece("Twitter: "@, opt_view(f.twitter)) + seq![' '];
        assert(out@ =~= expected);
    }
    match &f.bio {
        Some(b) => {
            if !b.as_str().is_empty() {
                out.append("Bio: ");
                out.append(b.as_str());
                crate::text::push_char(&mut out, ',');
            }
        },
        None => {},
    }
    crate::text::push_char(&mut out, ' ');
    proof {
        expected = expected + bio_piece(f.bio) + seq![' '];
        assert(out@ =~= expected);
    }
    push_field(&mut out, "Company: ", &f.company);
    crate::text::push_char(&mut out, ' ');
    proof {
        expected = expected + field_piece("Company: "@, opt_view(f.company)) + seq![' '];
        assert(out@ =~= expected);
    }
    push_field(&mut out, "Location: ", &f.location);
    crate::text::push_char(&mut out, ' ');
    proof {
        expected = expected + field_piece("Location: "@, opt_view(f.location)) + seq![' '];
        assert(out@ =~= expected);
    }
    match &f.created_at {
        Some(d) => {
            out.append("Created At: ");
            let ds = format_date(d);
            out.append(ds.as_str());
            crate::text::push_char(&mut out, ',');
        },
        None => {},
    }
    crate::text::push_char(&mut out, ' ');
    proof {
        expected = expected + created_piece(f.created_at) + seq![' '];
        assert(out@ =~= expected);
    }
    match &f.email {
        Some(e) => {
            out.append("Email: ");
            out.append(e.as_str());
        },
        None => {},
    }
    crate::text::push_char(&mut out, '\n');
    proof {
        expected = expected + email_piece(f.email) + seq!['\n'];
        assert(out@ =~= expected);
        assert(expected =~= user_entry_spec(*f));
    }
    out
}

/// The profile text of one user, under its header; `None` when the fetched
/// record named no login.
pub open spec fn user_profile_spec(f: UserFields) -> Seq<char> {
    "USER_profile: \n"@ + user_entry_spec(f)
}

/// Formats a user's profile text, requiring a login.
pub fn format_user_profile(f: &UserFields) -> (r: Option<String>)
    ensures
        r is Some <==> f.login is Some,
        r matches Some(s) ==> s@ == user_profile_spec(*f),
{
    if f.login.is_none() {
        return None;
    }
    let mut out = "USER_profile: \n".to_owned();
    let entry = format_user_entry(f);
    out.append(entry.as_str());
    Some(out)
}

/// One repository's line: name, optional description, star count when
/// nonzero, and commit count.
pub open spec fn repo_line_spec(
    name: Seq<char>,
    description: Option<Seq<char>>,
    stars: u64,
    commit_count: u64,
) -> Seq<char> {
    "Repo: "@ + name + seq![' '] + (if description is Some {
        "Description: "@ + description.unwrap() + seq![',']
    } else {
        Seq::empty()
    }) + seq![' '] + (if stars == 0 {
        Seq::empty()
    } else {
        "Stars: "@ + dec_str(stars as int)
    }) + seq![' '] + "Commits: "@ + dec_str(commit_count as int) + seq!['\n']
}

/// Formats one repository line.
pub fn format_repo_line(
    name: &str,
    description: &Option<String>,
    stars: u64,
    commit_count: u64,
) -> (r: String)
    requires
        stars <= usize::MAX,
        commit_count <= usize::MAX,
    ensures
        r@ == repo_line_spec(name@, opt_view(*description), stars, commit_count),
{
    let mut out = "Repo: ".to_owned();
    out.append(name);
    crate::text::push_char(&mut out, ' ');
    match description {
        Some(d) => {
            out.append("Description: ");
            out.append(d.as_str());
            crate::text::push_char(&mut out, ',');
        },
        None => {},
    }
    crate::text::push_char(&mut out, ' ');
    if stars != 0 {
        out.append("Stars: ");
        let ss = format_usize(stars as usize);
        out.append(ss.as_str());
    }
    crate::text::push_char(&mut out, ' ');
    out.append("Commits: ");
    let cs = format_usize(commit_count as usize);
    out.append(cs.as_str());
    crate::text::push_char(&mut out, '\n');
    proof {
        assert(out@ =~= repo_line_spec(name@, opt_view(*description), stars, commit_count));
    }
    out
}

/// Character threshold above which an issue body is clipped.
pub const ISSUE_BODY_CLIP_THRESHOLD: usize = 180;

/// Characters of a clipped issue body kept from the start.
pub const ISSUE_BODY_CLIP_HEAD: usize = 100;

/// Characters of a clipped issue body kept from the end.
pub const ISSUE_BODY_CLIP_TAIL: usize = 80;

/// The body field of an issue search entry: long bodies keep their head and
/// tail characters and lose the trailing comma.
pub open spec fn issue_body_piece(body: Option<Seq<char>>) -> Seq<char> {
    match body {
        Some(b) => {
            if b.len() > ISSUE_BODY_CLIP_THRESHOLD as int {
                "Body: "@ + clip_head_tail_spec(
                    b,
                    ISSUE_BODY_CLIP_THRESHOLD as int,
                    ISSUE_BODY_CLIP_HEAD as int,
                    ISSUE_BODY_CLIP_TAIL as int,
                )
            } else {
                "Body: "@ + b + seq![',']
            }
        },
        None => Seq::empty(),
    }
}

/// One issue search entry: labelled fields, the creation date, the
/// assignee list, and a clipped body.
pub open spec fn issue_entry_spec(
    title: Option<Seq<char>>,
    url: Option<Seq<char>>,
    date: Date,
    author: Option<Seq<char>>,
    assignees: Seq<Seq<char>>,
    state: Option<Seq<char>>,
    body: Option<Seq<char>>,
    association: Option<Seq<char>>,
) -> Seq<char> {
    field_piece("Title: "@, title) + seq![' '] + (if url is Some {
        "Url: "@ + url.unwrap()
    } else {
        Seq::empty()
    }) + seq![' '] + "Created At: "@ + date_str_spec(date) + seq![' '] + field_piece(
        "Author: "@,
        author,
    ) + seq![' '] + (if assignees.len() > 0 {
        "Assignees: "@ + join_sep(assignees, ", "@) + seq![',']
    } else {
        Seq::empty()
    }) + "  "@ + field_piece("State: "@, state) + seq![' '] + issue_body_piece(body) + seq![' ']
        + (if association is Some {
        "Author Association: "@ + association.unwrap()
    } else {
        Seq::empty()
    }) + seq!['\n']
}

/// Formats one issue search entry.
pub fn format_issue_entry(
    title: &Option<String>,
    url: &Option<String>,
    date: &Date,
    author: &Option<String>,
    assignees: &Vec<String>,
    state: &Option<String>,
    body: &Option<String>,
    association: &Option<String>,
) -> (r: String)
    ensures
        r@ == issue_entry_spec(
            opt_view(*title),
            opt_view(*url),
            *date,
            opt_view(*author),
            str_views(assignees@),
            opt_view(*state),
            opt_view(*body),
            opt_view(*association),
        ),
{
    let mut out = String::new();
    let ghost mut expected = Seq::<char>::empty();
    push_field(&mut out, "Title: ", title);
    crate::text::push_char(&mut out, ' ');
    proof {
        expected = expected + field_piece("Title: "@, opt_view(*title)) + seq![' '];
        assert(out@ =~= expected);
    }
    match url {
        Some(u) => {
            out.append("Url: ");
            out.append(u.as_str());
        },
        None => {},
    }
    crate::text::push_char(&mut out, ' ');
    proof {
        expected = expected + (if opt_view(*url) is Some {
            "Url: "@ + opt_view(*url).unwrap()
        } else {
            Seq::<char>::empty()
        }) + seq![' '];
        assert(out@ =~= expected);
    }
    out.append("Created At: ");
    let ds = format_date(date);
    out.append(ds.as_str());
    crate::text::push_char(&mut out, ' ');
    proof {
        expected = expected + "Created At: "@ + date_str_spec(*date) + seq![' '];
        assert(out@ =~= expected);
    }
    push_field(&mut out, "Author: ", author);
    crate::text::push_char(&mut out, ' ');
    proof {
        expected = expected + field_piece("Author: "@, opt_view(*author)) + seq![' '];
        assert(out@ =~= expected);
    }
    if assignees.len() > 0 {
        out.append("Assignees: ");
        let joined = join_strings(assignees, ", ");
        out.append(joined.as_str());
        crate::text::push_char(&mut out, ',');
    }
    out.append("  ");
    proof {
        expected = expected + (if str_views(assignees@).len() > 0 {
            "Assignees: "@ + join_sep(str_views(assignees@), ", "@) + seq![',']
        } else {
            Seq::<char>::empty()
        }) + "  "@;
        assert(out@ =~= expected);
    }
    push_field(&mut out, "State: ", state);
    crate::text::push_char(&mut out, ' ');
    proof {
        expected = expected + field_piece("State: "@, opt_view(*state)) + seq![' '];
        assert(out@ =~= expected);
    }
    match body {
        Some(b) => {
            let blen = crate::text::str_chars(b.as_str()).len();
            out.append("Body: ");
            if blen > ISSUE_BODY_CLIP_THRESHOLD {
                let clipped = clip_head_tail(
                    b.as_str(),
                    ISSUE_BODY_CLIP_THRESHOLD,
                    ISSUE_BODY_CLIP_HEAD,
                    ISSUE_BODY_CLIP_TAIL,
                );
                out.append(clipped.as_str());
            } else {
                out.append(b.as_str());
                crate::text::push_char(&mut out, ',');
            }
        },
        None => {},
    }
    crate::text::push_char(&mut out, ' ');
    proof {
        expected = expected + issue_body_piece(opt_view(*body)) + seq![' '];
        assert(out@ =~= expected);
    }
    match association {
        Some(a) => {
            out.append("Author Association: ");
            out.append(a.as_str());
        },
        None => {},
    }
    crate::text::push_char(&mut out, '\n');
    proof {
        expected = expected + (if opt_view(*association) is Some {
            "Author Association: "@ + opt_view(*association).unwrap()
        } else {
            Seq::<char>::empty()
        }) + seq!['\n'];
        assert(out@ =~= expected);
        assert(expected =~= issue_entry_spec(
            opt_view(*title),
            opt_view(*url),
            *date,
            opt_view(*author),
            str_views(assignees@),
            opt_view(*state),
            opt_view(*body),
            opt_view(*association),
        ));
    }
    out
}

/// Character threshold above which a repository description is clipped.
pub const REPO_DESC_CLIP_THRESHOLD: usize = 300;

/// Characters of a clipped repository description kept from the start.
pub const REPO_DESC_CLIP_HEAD: usize = 180;

/// Characters of a clipped repository description kept from the end.
pub const REPO_DESC_CLIP_TAIL: usize = 120;

/// The description field of a repository search entry: long descriptions
/// keep their head and tail characters and lose the trailing comma.
pub open spec fn repo_desc_piece(desc: Option<Seq<char>>) -> Seq<char> {
    match desc {
        Some(d) => {
            if d.len() > REPO_DESC_CLIP_THRESHOLD as int {
                "Description: "@ + clip_head_tail_spec(
                    d,
                    REPO_DESC_CLIP_THRESHOLD as int,
                    REPO_DESC_CLIP_HEAD as int,
                    REPO_DESC_CLIP_TAIL as int,
                )
            } else {
                "Description: "@ + d + seq![',']
            }
        },
        None => Seq::empty(),
    }
}

/// One repository search entry: labelled fields, the creation date, and a
/// clipped description.
pub open spec fn repo_search_entry_spec(
    name: Option<Seq<char>>,
    description: Option<Seq<char>>,
    url: Option<Seq<char>>,
    date: Date,
    stars: Option<u64>,
    forks: Option<u64>,
) -> Seq<char> {
    field_piece("Name: "@, name) + seq![' '] + repo_desc_piece(description) + seq![' '] + (if url
        is Some {
        "Url: "@ + url.unwrap()
    } else {
        Seq::empty()
    }) + seq![' '] + "Created At: "@ + date_str_spec(date) + seq![' '] + (if stars is Some {
        "Stars: "@ + dec_str(stars.unwrap() as int) + seq![',']
    } else {
        Seq::empty()
    }) + seq![' '] + (if forks is Some {
        "Forks: "@ + dec_str(forks.unwrap() as int)
    } else {
        Seq::empty()
    }) + seq!['\n']
}

/// Formats one repository search entry.
pub fn format_repo_search_entry(
    name: &Option<String>,
    description: &Option<String>,
    url: &Option<String>,
    date: &Date,
    stars: &Option<u64>,
    forks: &Option<u64>,
) -> (r: String)
    requires
        stars matches Some(s) ==> s <= usize::MAX,
        forks matches Some(f) ==> f <= usize::MAX,
    ensures
        r@ == repo_search_entry_spec(
            opt_view(*name),
            opt_view(*description),
            opt_view(*url),
            *date,
            *stars,
            *forks,
        ),
{
    let mut out = String::new();
    let ghost mut expected = Seq::<char>::empty();
    push_field(&mut out, "Name: ", name);
    crate::text::push_char(&mut out, ' ');
    proof {
        expected = expected + field_piece("Name: "@, opt_view(*name)) + seq![' '];
        assert(out@ =~= expected);
    }
    match description {
        Some(d) => {
            let dlen = crate::text::str_chars(d.as_str()).len();
            out.append("Description: ");
            if dlen > REPO_DESC_CLIP_THRESHOLD {
                let clipped = clip_head_tail(
                    d.as_str(),
                    REPO_DESC_CLIP_THRESHOLD,
                    REPO_DESC_CLIP_HEAD,
                    REPO_DESC_CLIP_TAIL,
                );
                out.append(clipped.as_str());
            } else {
                out.append(d.as_str());
                crate::text::push_char(&mut out, ',');
            }
        },
        None => {},
    }
    crate::text::push_char(&mut out, ' ');
    proof {
        expected = expected + repo_desc_piece(opt_view(*description)) + seq![' '];
        assert(out@ =~= expected);
    }
    match url {
        Some(u) => {
            out.append("Url: ");
            out.append(u.as_str());
        },
        None => {},
    }
    crate::text::push_char(&mut out, ' ');
    proof {
        expected = expected + (if opt_view(*url) is Some {
            "Url: "@ + opt_view(*url).unwrap()
        } else {
            Seq::<char>::empty()
        }) + seq![' '];
        assert(out@ =~= expected);
    }
    out.append("Created At: ");
    let ds = format_date(date);
    out.append(ds.as_str());
    crate::text::push_char(&mut out, ' ');
    proof {
        expected = expected + "Created At: "@ + date_str_spec(*date) + seq![' '];
        assert(out@ =~= expected);
    }
    match stars {
        Some(s) => {
            out.append("Stars: ");
            let ss = format_usize(*s as usize);
            out.append(ss.as_str());
            crate::text::push_char(&mut out, ',');
        },
        None => {},
    }
    crate::text::push_char(&mut out, ' ');
    proof {
        expected = expected + (if *stars is Some {
            "Stars: "@ + dec_str(stars.unwrap() as int) + seq![',']
        } else {
            Seq::<char>::empty()
        }) + seq![' '];
        assert(out@ =~= expected);
    }
    match forks {
        Some(f) => {
            out.append("Forks: ");
            let fs = format_usize(*f as usize);
            out.append(fs.as_str());
        },
        None => {},
    }
    crate::text::push_char(&mut out, '\n');
    proof {
        expected = expected + (if *forks is Some {
            "Forks: "@ + dec_str(forks.unwrap() as int)
        } else {
            Seq::<char>::empty()
        }) + seq!['\n'];
        assert(out@ =~= expected);
        assert(expected =~= repo_search_entry_spec(
            opt_view(*name),
            opt_view(*description),
            opt_view(*url),
            *date,
            *stars,
            *forks,
        ));
    }
    out
}

/// The positions of the repository list ordered by descending star count:
/// a rearrangement of `0..n` along which the star counts never increase.
pub fn stars_order(stars: &Vec<u64>) -> (r: Vec<usize>)
    ensures
        r@.len() == stars@.len(),
        forall|k: int| 0 <= k < r@.len() ==> (r@[k] as int) < stars@.len(),
        forall|k1: int, k2: int| 0 <= k1 < k2 < r@.len() ==> r@[k1] != r@[k2],
        forall|i: int, j: int|
            0 <= i < j < r@.len() ==> stars@[r@[i] as int] >= stars@[r@[j] as int],
{
    let n = stars.len();
    let mut pending: Vec<usize> = Vec::new();
    let mut i: usize = 0;
    while i < n
        invariant
            i <= n,
            n == stars@.len(),
            pending@.len() == i,
            forall|k: int| 0 <= k < i ==> pending@[k] == k as usize,
        decreases n - i,
    {
        pending.push(i);
        i = i + 1;
    }
    let mut out: Vec<usize> = Vec::new();
    while pending.len() > 0
        invariant
            n == stars@.len(),
            out@.len() + pending@.len() == n,
            forall|k: int| 0 <= k < out@.len() ==> (out@[k] as int) < n,
            forall|k: int| 0 <= k < pending@.len() ==> (pending@[k] as int) < n,
            forall|k1: int, k2: int| 0 <= k1 < k2 < out@.len() ==> out@[k1] != out@[k2],
            forall|k1: int, k2: int|
                0 <= k1 < k2 < pending@.len() ==> pending@[k1] != pending@[k2],
            forall|k1: int, k2: int|
                0 <= k1 < out@.len() && 0 <= k2 < pending@.len() ==> out@[k1] != pending@[k2],
            forall|i1: int, j1: int|
                0 <= i1 < j1 < out@.len() ==> stars@[out@[i1] as int] >= stars@[out@[j1] as int],
            forall|k1: int, k2: int|
                0 <= k1 < out@.len() && 0 <= k2 < pending@.len() ==> stars@[out@[k1] as int]
                    >= stars@[pending@[k2] as int],
        decreases pending@.len(),
    {
        let mut best: usize = 0;
        let mut j: usize = 1;
        while j < pending.len()
            invariant
                best < j <= pending@.len(),
                n == stars@.len(),
                forall|k: int| 0 <= k < pending@.len() ==> (pending@[k] as int) < n,
                forall|k: int|
                    0 <= k < j ==> stars@[pending@[best as int] as int]
                        >= stars@[pending@[k] as int],
            decreases pending@.len() - j,
        {
            if stars[pending[j]] > stars[pending[best]] {
                best = j;
            }
            j = j + 1;
        }
        let chosen = pending.remove(best);
        out.push(chosen);
    }
    out
}

/// The community profile description line.
pub open spec fn community_description_spec(description: Seq<char>) -> Seq<char> {
    "Description: "@ + description
}

/// Formats the community profile description.
pub fn community_description(description: &str) -> (r: String)
    ensures
        r@ == community_description_spec(description@),
{
    let mut out = "Description: ".to_owned();
    out.append(description);
    proof {
        assert(out@ =~= community_description_spec(description@));
    }
    out
}

} // verus!
