//! Pure support logic for the data fetchers: cache keys, pagination math,
//! Link-header parsing, readme decoding, search query and URL building,
//! record construction from fetched commit data, and the field formatting
//! of user-profile and repository summaries.

use std::hash::Hasher;
use vstd::prelude::*;
use vstd::string::StrSliceExecFns;
use vstd::utf8::{valid_utf8, decode_utf8};

use crate::records::{Date, GitMemory, MemoryType, digit_char};
use crate::text::{take_chars, contains_seq, split_seq, str_chars, split_char, contains_chars,
    clip_chars, chars_to_string, str_views};

verus! {

/// The 64-bit XXH64 digest, seed 0, of the UTF-8 bytes of a text; a
/// function of the text alone.
pub uninterp spec fn xxh64_of(s: Seq<char>) -> u64;

/// Relies on `twox_hash::XxHash64` with seed 0 through the std `Hasher`
/// trait (`write`, then `finish`): the digest depends on the bytes alone.
#[verifier::external_body]
fn xxh64(s: &str) -> (r: u64)
    ensures
        r == xxh64_of(s@),
{
    let mut hasher = twox_hash::XxHash64::with_seed(0);
    hasher.write(s.as_bytes());
    hasher.finish()
}

/// The percent-encoded form of a text; a function of the text alone.
pub uninterp spec fn url_encoded_of(s: Seq<char>) -> Seq<char>;

/// Relies on `urlencoding::encode`: percent-encodes everything but
/// `A-Z a-z 0-9 _ . ~ -`, deterministically from the input text.
#[verifier::external_body]
pub(crate) fn url_encode(s: &str) -> (r: String)
    ensures
        r@ == url_encoded_of(s@),
        s@.len() == 0 ==> r@.len() == 0,
{
    urlencoding::encode(s).into_owned()
}

/// What base64 decoding yields on a text, when it decodes at all; a
/// function of the text alone.
pub uninterp spec fn base64_decode_of(s: Seq<char>) -> Option<Seq<u8>>;

/// Relies on `base64::decode` (the standard alphabet with padding): it
/// fails exactly on malformed input and otherwise depends on the input
/// alone.
#[verifier::external_body]
fn base64_decode(s: &str) -> (r: Option<Vec<u8>>)
    ensures
        r is Some <==> base64_decode_of(s@) is Some,
        r matches Some(v) ==> base64_decode_of(s@) == Some(v@),
{
    base64::decode(s).ok()
}

/// Relies on `String::from_utf8`: succeeds exactly on valid UTF-8 and
/// decodes the bytes to their characters.
#[verifier::external_body]
fn bytes_to_string(v: Vec<u8>) -> (r: Option<String>)
    ensures
        r is Some <==> valid_utf8(v@),
        r matches Some(s) ==> s@ == decode_utf8(v@),
{
    String::from_utf8(v).ok()
}

/// The hexadecimal digit character for `n`.
pub open spec fn hex_digit_char(n: int) -> char {
    if n < 10 {
        digit_char(n)
    } else if n == 10 {
        'a'
    } else if n == 11 {
        'b'
    } else if n == 12 {
        'c'
    } else if n == 13 {
        'd'
    } else if n == 14 {
        'e'
    } else {
        'f'
    }
}

/// The lowercase hexadecimal form of a number, no padding.
pub open spec fn hex_str(n: int) -> Seq<char>
    decreases n,
{
    if n < 16 {
        seq![hex_digit_char(n % 16)]
    } else {
        hex_str(n / 16).push(hex_digit_char(n % 16))
    }
}

/// Executable counterpart of `hex_digit_char`.
fn hex_digit(n: u64) -> (r: char)
    requires
        n <= 15,
    ensures
        r == hex_digit_char(n as int),
{
    if n == 0 {
        '0'
    } else if n == 1 {
        '1'
    } else if n == 2 {
        '2'
    } else if n == 3 {
        '3'
    } else if n == 4 {
        '4'
    } else if n == 5 {
        '5'
    } else if n == 6 {
        '6'
    } else if n == 7 {
        '7'
    } else if n == 8 {
        '8'
    } else if n == 9 {
        '9'
    } else if n == 10 {
        'a'
    } else if n == 11 {
        'b'
    } else if n == 12 {
        'c'
    } else if n == 13 {
        'd'
    } else if n == 14 {
        'e'
    } else {
        'f'
    }
}

/// Formats a number in lowercase hexadecimal.
pub fn format_u64_hex(n: u64) -> (r: String)
    ensures
        r@ == hex_str(n as int),
{
    let mut digits: Vec<char> = Vec::new();
    let mut m = n;
    let mut done = false;
    while !done
        invariant
            done ==> hex_str(n as int) == digits@,
            !done ==> hex_str(n as int) == (if m < 16 {
                seq![hex_digit_char(m as int)] + digits@
            } else {
                hex_str(m as int) + digits@
            }),
        decreases m, (if done {
            0int
        } else {
            1int
        }),
    {
        let ghost pre = digits@;
        digits.insert(0, hex_digit(m % 16));
        proof {
            assert(digits@ =~= seq![hex_digit_char(m as int % 16)] + pre);
        }
        if m < 16 {
            done = true;
            proof {
                assert(seq![hex_digit_char(m as int)] + pre =~= seq![hex_digit_char(m as int % 16)]
                    + pre);
            }
        } else {
            proof {
                assert(hex_str(m as int) == hex_str(m as int / 16).push(
                    hex_digit_char(m as int % 16),
                ));
                assert(hex_str(m as int / 16).push(hex_digit_char(m as int % 16)) + pre =~= hex_str(
                    m as int / 16,
                ) + (seq![hex_digit_char(m as int % 16)] + pre));
            }
            m = m / 16;
        }
    }
    chars_to_string(&digits)
}

/// The key under which a repository's contributor set is stored: the
/// lowercase hex digest of `owner/repo`.
pub open spec fn contributor_key_spec(owner: Seq<char>, repo: Seq<char>) -> Seq<char> {
    hex_str(xxh64_of(owner + "/"@ + repo) as int)
}

/// Computes the contributor-set storage key for a repository.
pub fn contributor_key(owner: &str, repo: &str) -> (r: String)
    ensures
        r@ == contributor_key_spec(owner@, repo@),
{
    let mut joined = owner.to_owned();
    joined.append("/");
    joined.append(repo);
    let h = xxh64(joined.as_str());
    format_u64_hex(h)
}

/// Whether a name stands in a list of names.
pub fn contains_name(v: &Vec<String>, name: &String) -> (r: bool)
    ensures
        r == str_views(v@).contains(name@),
{
    let mut i: usize = 0;
    while i < v.len()
        invariant
            i <= v@.len(),
            str_views(v@).len() == v@.len(),
            forall|k: int| 0 <= k < i ==> str_views(v@)[k] != name@,
        decreases v.len() - i,
    {
        if v[i].eq(name) {
            proof {
                assert(str_views(v@)[i as int] == name@);
            }
            return true;
        }
        i = i + 1;
    }
    proof {
        assert(!str_views(v@).contains(name@));
    }
    false
}

/// Adds a contributor to the known set when absent.  Returns whether the
/// name was new, and the updated set.
pub fn register_contributor(existing: Vec<String>, user_name: String) -> (r: (bool, Vec<String>))
    ensures
        r.0 == !str_views(existing@).contains(user_name@),
        r.0 ==> str_views(r.1@) == str_views(existing@).push(user_name@),
        !r.0 ==> str_views(r.1@) == str_views(existing@),
{
    let mut set = existing;
    let already = contains_name(&set, &user_name);
    if !already {
        let ghost pre = set@;
        set.push(user_name);
        proof {
            assert(str_views(pre.push(user_name)) =~= str_views(pre).push(user_name@));
        }
        (true, set)
    } else {
        (false, set)
    }
}

/// How many result pages a total item count occupies, at thirty items per
/// page.
pub fn pages_needed(total: u64) -> (r: u64)
    requires
        total <= u64::MAX - 29,
    ensures
        r == (total + 29) / 30,
        total > 0 ==> r >= 1,
        total == 0 ==> r == 0,
{
    (total + 29) / 30
}

/// Characters trimmed from the ends of a Link-header URL.
pub open spec fn is_link_trim(c: char) -> bool {
    c == ' ' || c == '<' || c == '>'
}

/// A text without its trimmable leading characters.
pub open spec fn trim_front(s: Seq<char>) -> Seq<char>
    decreases s.len(),
{
    if s.len() > 0 && is_link_trim(s[0]) {
        trim_front(s.drop_first())
    } else {
        s
    }
}

/// A text without its trimmable trailing characters.
pub open spec fn trim_back(s: Seq<char>) -> Seq<char>
    decreases s.len(),
{
    if s.len() > 0 && is_link_trim(s.last()) {
        trim_back(s.drop_last())
    } else {
        s
    }
}

/// The `rel="next"` link of a Link header, if one of its comma-separated
/// segments carries that relation: the segment's part before its first
/// semicolon, with angle brackets and spaces trimmed.
pub open spec fn next_link_in(segs: Seq<Seq<char>>, k: int) -> Option<Seq<char>>
    decreases segs.len() - k,
{
    if k < 0 || k >= segs.len() {
        None
    } else if contains_seq(segs[k], "rel=\"next\""@) {
        Some(trim_back(trim_front(split_seq(segs[k], ';')[0])))
    } else {
        next_link_in(segs, k + 1)
    }
}

/// The URL of the next result page named by a Link header, if any.
pub open spec fn next_page_link_spec(h: Seq<char>) -> Option<Seq<char>> {
    next_link_in(split_seq(h, ','), 0)
}

/// Trims link punctuation off both ends of a character vector.
fn trim_link_chars(v: &Vec<char>) -> (r: Vec<char>)
    ensures
        r@ == trim_back(trim_front(v@)),
{
    let mut start: usize = 0;
    proof {
        assert(v@.skip(0) =~= v@);
    }
    while start < v.len() && (v[start] == ' ' || v[start] == '<' || v[start] == '>')
        invariant
            start <= v@.len(),
            trim_front(v@) == trim_front(v@.skip(start as int)),
        decreases v.len() - start,
    {
        proof {
            assert(v@.skip(start as int)[0] == v@[start as int]);
            assert(v@.skip(start as int).drop_first() =~= v@.skip(start as int + 1));
        }
        start = start + 1;
    }
    proof {
        if start == v@.len() {
            assert(v@.skip(start as int) =~= Seq::<char>::empty());
        } else {
            assert(v@.skip(start as int)[0] == v@[start as int]);
        }
        assert(trim_front(v@.skip(start as int)) == v@.skip(start as int));
    }
    let mut mid: Vec<char> = Vec::new();
    let mut i: usize = start;
    while i < v.len()
        invariant
            start <= i <= v@.len(),
            mid@ == v@.subrange(start as int, i as int),
        decreases v.len() - i,
    {
        mid.push(v[i]);
        i = i + 1;
        proof {
            assert(v@.subrange(start as int, i - 1).push(v@[i - 1]) =~= v@.subrange(
                start as int,
                i as int,
            ));
        }
    }
    proof {
        assert(mid@ =~= v@.skip(start as int));
    }
    let mut end: usize = mid.len();
    proof {
        assert(mid@.take(mid@.len() as int) =~= mid@);
    }
    while end > 0 && (mid[end - 1] == ' ' || mid[end - 1] == '<' || mid[end - 1] == '>')
        invariant
            end <= mid@.len(),
            trim_back(mid@) == trim_back(mid@.take(end as int)),
        decreases end,
    {
        proof {
            assert(mid@.take(end as int).last() == mid@[end - 1]);
            assert(mid@.take(end as int).drop_last() =~= mid@.take(end - 1));
        }
        end = end - 1;
    }
    proof {
        if end > 0 {
            assert(mid@.take(end as int).last() == mid@[end - 1]);
        }
        assert(trim_back(mid@.take(end as int)) == mid@.take(end as int));
    }
    let out = clip_chars(&mid, end);
    out
}

/// Finds the URL of the next result page in a pagination Link header.
pub fn next_page_link(header: &str) -> (r: Option<String>)
    ensures
        r is Some <==> next_page_link_spec(header@) is Some,
        r matches Some(s) ==> next_page_link_spec(header@) == Some(s@),
{
    let chars = str_chars(header);
    let segs = split_char(&chars, ',');
    let marker = str_chars("rel=\"next\"");
    let ghost seg_views = split_seq(header@, ',');
    proof {
        assert(crate::text::views_of(segs@).len() == segs@.len());
    }
    let mut k: usize = 0;
    while k < segs.len()
        invariant
            k <= segs@.len(),
            crate::text::views_of(segs@) == seg_views,
            seg_views == split_seq(header@, ','),
            marker@ == "rel=\"next\""@,
            next_link_in(seg_views, 0) == next_link_in(seg_views, k as int),
        decreases segs.len() - k,
    {
        proof {
            assert(seg_views[k as int] == segs@[k as int]@);
        }
        if contains_chars(&segs[k], &marker) {
            let parts = split_char(&segs[k], ';');
            proof {
                assert(crate::text::views_of(parts@).len() == parts@.len());
                assert(split_seq(seg_views[k as int], ';').len() >= 1) by {
                    lemma_split_nonempty(seg_views[k as int], ';');
                }
                assert(parts@[0]@ == split_seq(seg_views[k as int], ';')[0]);
            }
            let first = &parts[0];
            let trimmed = trim_link_chars(first);
            proof {
                assert(next_link_in(seg_views, k as int) == Some(trimmed@));
            }
            return Some(chars_to_string(&trimmed));
        }
        k = k + 1;
    }
    None
}

/// Splitting always yields at least one segment.
pub proof fn lemma_split_nonempty(s: Seq<char>, sep: char)
    ensures
        split_seq(s, sep).len() >= 1,
    decreases s.len(),
{
    lemma_split_from_nonempty(s, sep, Seq::empty());
}

proof fn lemma_split_from_nonempty(s: Seq<char>, sep: char, cur: Seq<char>)
    ensures
        crate::text::split_from(s, sep, cur).len() >= 1,
    decreases s.len(),
{
    if s.len() == 0 {
    } else if s[0] == sep {
        lemma_split_from_nonempty(s.drop_first(), sep, Seq::empty());
    } else {
        lemma_split_from_nonempty(s.drop_first(), sep, cur.push(s[0]));
    }
}

/// The decoded text of a fetched readme: newlines stripped, base64 decoded,
/// the bytes read as UTF-8, under a fixed label.  `None` when the content
/// does not decode.
pub open spec fn readme_text_spec(content: Seq<char>) -> Option<Seq<char>> {
    let cleaned = content.filter(|c: char| c != '\n');
    match base64_decode_of(cleaned) {
        Some(bytes) => {
            if valid_utf8(bytes) {
                Some("Readme: "@ + decode_utf8(bytes))
            } else {
                None
            }
        },
        None => None,
    }
}

/// Removes every newline character.
fn strip_newlines(v: &Vec<char>) -> (r: Vec<char>)
    ensures
        r@ == v@.filter(|c: char| c != '\n'),
{
    let mut out: Vec<char> = Vec::new();
    let mut i: usize = 0;
    proof {
        reveal(Seq::filter);
        assert(v@.take(0) =~= Seq::<char>::empty());
        assert(out@ =~= v@.take(0).filter(|c: char| c != '\n'));
    }
    while i < v.len()
        invariant
            i <= v@.len(),
            out@ == v@.take(i as int).filter(|c: char| c != '\n'),
        decreases v.len() - i,
    {
        proof {
            reveal(Seq::filter);
            assert(v@.take(i as int + 1).drop_last() =~= v@.take(i as int));
            assert(v@.take(i as int + 1).last() == v@[i as int]);
        }
        let c = v[i];
        proof {
            reveal(Seq::filter);
            assert(v@.take(i as int + 1).filter(|c: char| c != '\n') == (if v@[i as int] != '\n' {
                v@.take(i as int).filter(|c: char| c != '\n').push(v@[i as int])
            } else {
                v@.take(i as int).filter(|c: char| c != '\n')
            }));
        }
        if c != '\n' {
            out.push(c);
        }
        i = i + 1;
    }
    proof {
        assert(v@.take(v@.len() as int) =~= v@);
    }
    out
}

/// Decodes the base64 `content` field of a fetched readme into the labelled
/// readme text.
pub fn decode_readme_content(content: &str) -> (r: Option<String>)
    ensures
        r is Some <==> readme_text_spec(content@) is Some,
        r matches Some(s) ==> readme_text_spec(content@) == Some(s@),
{
    let chars = str_chars(content);
    let cleaned = strip_newlines(&chars);
    let cleaned_str = chars_to_string(&cleaned);
    match base64_decode(cleaned_str.as_str()) {
        Some(bytes) => {
            match bytes_to_string(bytes) {
                Some(text) => {
                    let mut out = "Readme: ".to_owned();
                    out.append(text.as_str());
                    Some(out)
                },
                None => None,
            }
        },
        None => None,
    }
}

/// Turns one fetched commit into an activity record when it falls after the
/// cutoff date; older commits are skipped.
pub fn commit_to_record(
    login: String,
    message: String,
    url: String,
    date: Date,
    cutoff: Date,
) -> (r: Option<GitMemory>)
    requires
        date.well_formed(),
        cutoff.well_formed(),
    ensures
        r is Some <==> date.ordinal() > cutoff.ordinal(),
        r matches Some(gm) ==> gm.memory_type is Commit && gm.name@ == login@ && gm.tag_line@
            == message@ && gm.source_url@ == url@ && gm.payload@.len() == 0 && gm.date == date,
{
    if date.is_after(&cutoff) {
        Some(GitMemory::new(MemoryType::Commit, login, message, url, date))
    } else {
        None
    }
}

/// The short correlation id of a commit: the first five characters of what
/// follows the last slash of its URL.
pub open spec fn sha_serial_spec(url: Seq<char>) -> Seq<char> {
    take_chars(split_seq(url, '/').last(), 5)
}

/// Extracts a commit URL's short hash prefix for log correlation.
pub fn sha_serial(url: &str) -> (r: String)
    ensures
        r@ == sha_serial_spec(url@),
{
    let chars = str_chars(url);
    let parts = split_char(&chars, '/');
    proof {
        lemma_split_nonempty(url@, '/');
        assert(crate::text::views_of(parts@).len() == parts@.len());
        assert(parts@[parts@.len() - 1]@ == split_seq(url@, '/').last());
    }
    let last = &parts[parts.len() - 1];
    let clipped = clip_chars(last, 5);
    chars_to_string(&clipped)
}

/// Head/tail clipping by characters: texts longer than the threshold keep
/// their first `head` and last `tail` characters.
pub open spec fn clip_head_tail_spec(s: Seq<char>, threshold: int, head: int, tail: int) -> Seq<
    char,
> {
    if s.len() > threshold {
        take_chars(s, head) + s.skip(s.len() - tail)
    } else {
        s
    }
}

/// Clips a long text to its first `head` and last `tail` characters.
pub fn clip_head_tail(s: &str, threshold: usize, head: usize, tail: usize) -> (r: String)
    requires
        head <= threshold,
        tail <= threshold,
    ensures
        r@ == clip_head_tail_spec(s@, threshold as int, head as int, tail as int),
{
    let chars = str_chars(s);
    if chars.len() <= threshold {
        return s.to_owned();
    }
    let mut out = clip_chars(&chars, head);
    let start_tail = chars.len() - tail;
    let mut i = start_tail;
    let ghost mid = out@;
    while i < chars.len()
        invariant
            start_tail <= i <= chars@.len(),
            start_tail == chars@.len() - tail,
            out@ == mid + chars@.subrange(start_tail as int, i as int),
        decreases chars.len() - i,
    {
        out.push(chars[i]);
        i = i + 1;
        proof {
            assert(mid + chars@.subrange(start_tail as int, i - 1) + seq![chars@[i - 1]] =~= mid
                + chars@.subrange(start_tail as int, i as int));
        }
    }
    proof {
        assert(chars@.subrange(start_tail as int, chars@.len() as int) =~= chars@.skip(
            start_tail as int,
        ));
    }
    chars_to_string(&out)
}

} // verus!
