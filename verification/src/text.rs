//! Character-level text primitives: conversion between `String` and
//! `Vec<char>`, whitespace word splitting, joining, substring search and
//! generic character splitting.  Everything downstream (quote stripping,
//! budgeting, prompt assembly) is specified over these models.

use vstd::prelude::*;
use vstd::std_specs::iter::IteratorSpec;

verus! {

/// A character the word splitter treats as whitespace.
pub open spec fn is_space_char(c: char) -> bool {
    c == ' ' || c == '\t' || c == '\n' || c == '\r'
}

/// Executable counterpart of `is_space_char`.
pub fn is_space(c: char) -> (r: bool)
    ensures
        r == is_space_char(c),
{
    c == ' ' || c == '\t' || c == '\n' || c == '\r'
}

/// The views of a sequence of character vectors.
pub open spec fn views_of(ws: Seq<Vec<char>>) -> Seq<Seq<char>> {
    ws.map_values(|w: Vec<char>| w@)
}

/// Whitespace-delimited words of `s`, with `cur` the word fragment read so far.
pub open spec fn words_from(s: Seq<char>, cur: Seq<char>) -> Seq<Seq<char>>
    decreases s.len(),
{
    if s.len() == 0 {
        if cur.len() == 0 {
            Seq::empty()
        } else {
            seq![cur]
        }
    } else if is_space_char(s[0]) {
        if cur.len() == 0 {
            words_from(s.drop_first(), Seq::empty())
        } else {
            seq![cur] + words_from(s.drop_first(), Seq::empty())
        }
    } else {
        words_from(s.drop_first(), cur.push(s[0]))
    }
}

/// The whitespace-delimited words of a text.
pub open spec fn words(s: Seq<char>) -> Seq<Seq<char>> {
    words_from(s, Seq::empty())
}

/// Words joined by a single separator character.
pub open spec fn join_words(ws: Seq<Seq<char>>, sep: char) -> Seq<char>
    decreases ws.len(),
{
    if ws.len() == 0 {
        Seq::empty()
    } else if ws.len() == 1 {
        ws[0]
    } else {
        ws[0] + seq![sep] + join_words(ws.drop_first(), sep)
    }
}

/// Relies on `String::push`: appends exactly one character.
#[verifier::external_body]
pub fn push_char(s: &mut String, c: char)
    ensures
        final(s)@ == old(s)@.push(c),
{
    s.push(c);
}

/// The characters of a string slice, in order.
pub fn str_chars(s: &str) -> (r: Vec<char>)
    ensures
        r@ == s@,
{
    broadcast use vstd::string::axiom_spec_iter;

    let mut v: Vec<char> = Vec::new();
    for c in it: s.chars()
        invariant
            it.seq() == s@,
            v@ == it.seq().take(it.index() as int),
    {
        v.push(c);
        proof {
            assert(v@ =~= it.seq().take(it.index() as int + 1));
        }
    }
    proof {
        assert(v@ =~= s@);
    }
    v
}

/// A `String` holding exactly the given characters.
pub fn chars_to_string(v: &Vec<char>) -> (r: String)
    ensures
        r@ == v@,
{
    let mut s = String::new();
    let mut i: usize = 0;
    while i < v.len()
        invariant
            i <= v.len(),
            s@ == v@.subrange(0, i as int),
        decreases v.len() - i,
    {
        push_char(&mut s, v[i]);
        i = i + 1;
        proof {
            assert(s@ =~= v@.subrange(0, i as int));
        }
    }
    proof {
        assert(v@.subrange(0, v@.len() as int) =~= v@);
    }
    s
}

/// Splits a character sequence into its whitespace-delimited words.
pub fn split_words(v: &Vec<char>) -> (r: Vec<Vec<char>>)
    ensures
        views_of(r@) == words(v@),
{
    let mut out: Vec<Vec<char>> = Vec::new();
    let mut cur: Vec<char> = Vec::new();
    let mut i: usize = 0;
    proof {
        assert(v@.skip(0) =~= v@);
        assert(views_of(out@) =~= Seq::<Seq<char>>::empty());
        assert(Seq::<Seq<char>>::empty() + words_from(v@, Seq::empty()) =~= words_from(
            v@,
            Seq::empty(),
        ));
        assert(cur@ =~= Seq::<char>::empty());
    }
    while i < v.len()
        invariant
            i <= v.len(),
            words(v@) == views_of(out@) + words_from(v@.skip(i as int), cur@),
        decreases v.len() - i,
    {
        let c = v[i];
        proof {
            assert(v@.skip(i as int).drop_first() =~= v@.skip(i as int + 1));
            assert(v@.skip(i as int)[0] == v@[i as int]);
        }
        if is_space(c) {
            if cur.len() > 0 {
                proof {
                    assert(words_from(v@.skip(i as int), cur@) == seq![cur@] + words_from(
                        v@.skip(i as int + 1),
                        Seq::empty(),
                    ));
                    assert(views_of(out@.push(cur)) =~= views_of(out@).push(cur@));
                    assert(views_of(out@) + (seq![cur@] + words_from(
                        v@.skip(i as int + 1),
                        Seq::empty(),
                    )) =~= views_of(out@.push(cur)) + words_from(
                        v@.skip(i as int + 1),
                        Seq::empty(),
                    ));
                }
                out.push(cur);
                cur = Vec::new();
                proof {
                    assert(cur@ =~= Seq::<char>::empty());
                }
            } else {
                proof {
                    assert(cur@ =~= Seq::<char>::empty());
                }
            }
        } else {
            cur.push(c);
        }
        i = i + 1;
    }
    proof {
        assert(v@.skip(v@.len() as int) =~= Seq::<char>::empty());
    }
    if cur.len() > 0 {
        proof {
            assert(views_of(out@.push(cur)) =~= views_of(out@).push(cur@));
            assert(views_of(out@) + seq![cur@] =~= views_of(out@.push(cur)));
        }
        out.push(cur);
        proof {
            assert(views_of(out@) + Seq::<Seq<char>>::empty() =~= views_of(out@));
        }
    } else {
        proof {
            assert(cur@ =~= Seq::<char>::empty());
            assert(views_of(out@) + Seq::<Seq<char>>::empty() =~= views_of(out@));
        }
    }
    out
}

/// Appending one more word to a joined sequence inserts one separator.
pub proof fn lemma_join_push(ws: Seq<Seq<char>>, w: Seq<char>, sep: char)
    requires
        ws.len() > 0,
    ensures
        join_words(ws.push(w), sep) == join_words(ws, sep) + seq![sep] + w,
    decreases ws.len(),
{
    if ws.len() == 1 {
        assert(ws.push(w).drop_first() =~= seq![w]);
        assert(join_words(seq![w], sep) == w);
        assert(ws.push(w)[0] == ws[0]);
        assert(join_words(ws.push(w), sep) =~= join_words(ws, sep) + seq![sep] + w);
    } else {
        assert(ws.push(w).drop_first() =~= ws.drop_first().push(w));
        lemma_join_push(ws.drop_first(), w, sep);
        assert(ws.push(w)[0] == ws[0]);
        assert(join_words(ws.push(w), sep) =~= join_words(ws, sep) + seq![sep] + w);
    }
}

/// Joins character vectors with a single separator character between them.
pub fn join_with(ws: &Vec<Vec<char>>, sep: char) -> (r: Vec<char>)
    ensures
        r@ == join_words(views_of(ws@), sep),
{
    let mut out: Vec<char> = Vec::new();
    let mut i: usize = 0;
    proof {
        assert(views_of(ws@).take(0) =~= Seq::<Seq<char>>::empty());
    }
    while i < ws.len()
        invariant
            i <= ws.len(),
            views_of(ws@).len() == ws@.len(),
            out@ == join_words(views_of(ws@).take(i as int), sep),
        decreases ws.len() - i,
    {
        proof {
            assert(views_of(ws@).take(i as int + 1) =~= views_of(ws@).take(i as int).push(
                ws@[i as int]@,
            ));
        }
        let ghost pre = out@;
        if i > 0 {
            out.push(sep);
        }
        let w = &ws[i];
        let mut j: usize = 0;
        while j < w.len()
            invariant
                j <= w.len(),
                out@ == (if i > 0 {
                    pre.push(sep)
                } else {
                    pre
                }) + w@.subrange(0, j as int),
            decreases w.len() - j,
        {
            out.push(w[j]);
            j = j + 1;
            proof {
                assert((if i > 0 {
                    pre.push(sep)
                } else {
                    pre
                }) + w@.subrange(0, j - 1) + seq![w@[j - 1]] =~= (if i > 0 {
                    pre.push(sep)
                } else {
                    pre
                }) + w@.subrange(0, j as int));
            }
        }
        proof {
            assert(w@.subrange(0, w@.len() as int) =~= w@);
            if i > 0 {
                lemma_join_push(views_of(ws@).take(i as int), ws@[i as int]@, sep);
                assert(pre.push(sep) + w@ =~= pre + seq![sep] + w@);
            } else {
                assert(views_of(ws@).take(1) =~= seq![ws@[0]@]);
                assert(pre + w@ =~= w@);
            }
        }
        i = i + 1;
    }
    proof {
        assert(views_of(ws@).take(ws@.len() as int) =~= views_of(ws@));
    }
    out
}

/// The pattern occurs in `s` starting at position `i`.
pub open spec fn contains_at(s: Seq<char>, pat: Seq<char>, i: int) -> bool {
    0 <= i && i + pat.len() <= s.len() && s.subrange(i, i + pat.len() as int) == pat
}

/// The pattern occurs somewhere in `s`.
pub open spec fn contains_seq(s: Seq<char>, pat: Seq<char>) -> bool {
    exists|i: int| contains_at(s, pat, i)
}

/// The pattern occurs at position `i` of `s`.
fn matches_at(s: &Vec<char>, pat: &Vec<char>, i: usize) -> (r: bool)
    requires
        i + pat@.len() <= s@.len(),
    ensures
        r == contains_at(s@, pat@, i as int),
{
    let n = pat.len();
    let m = s.len();
    let mut j: usize = 0;
    while j < n
        invariant
            j <= n,
            n == pat@.len(),
            m == s@.len(),
            i + n <= m,
            forall|k: int| 0 <= k < j ==> s@[i + k] == pat@[k],
        decreases n - j,
    {
        if s[i + j] != pat[j] {
            proof {
                assert(s@.subrange(i as int, i + pat@.len() as int)[j as int] != pat@[j as int]);
            }
            return false;
        }
        j = j + 1;
    }
    proof {
        assert(s@.subrange(i as int, i + pat@.len() as int) =~= pat@);
    }
    true
}

/// Naive substring search.
pub fn contains_chars(s: &Vec<char>, pat: &Vec<char>) -> (r: bool)
    ensures
        r == contains_seq(s@, pat@),
{
    if pat.len() > s.len() {
        proof {
            assert(forall|i: int| !contains_at(s@, pat@, i));
        }
        return false;
    }
    if pat.len() == 0 {
        proof {
            assert(s@.subrange(0, 0) =~= pat@);
            assert(contains_at(s@, pat@, 0));
        }
        return true;
    }
    let slen = s.len();
    let bound = slen - pat.len();
    let mut i: usize = 0;
    while i <= bound
        invariant
            0 < pat@.len() <= s@.len(),
            slen == s@.len(),
            bound == s@.len() - pat@.len(),
            i <= bound + 1,
            forall|k: int| 0 <= k < i ==> !contains_at(s@, pat@, k),
        decreases bound + 1 - i,
    {
        if matches_at(s, pat, i) {
            return true;
        }
        i = i + 1;
    }
    proof {
        assert forall|k: int| !contains_at(s@, pat@, k) by {
            if 0 <= k <= bound {
                assert(!contains_at(s@, pat@, k));
            }
        }
    }
    false
}

/// The first `n` characters of `s`, or all of `s` when it is shorter.
pub open spec fn take_chars(s: Seq<char>, n: int) -> Seq<char> {
    if n <= s.len() {
        s.take(n)
    } else {
        s
    }
}

/// Executable counterpart of `take_chars`.
pub fn clip_chars(v: &Vec<char>, n: usize) -> (r: Vec<char>)
    ensures
        r@ == take_chars(v@, n as int),
{
    let m = if n <= v.len() {
        n
    } else {
        v.len()
    };
    let mut out: Vec<char> = Vec::new();
    let mut i: usize = 0;
    while i < m
        invariant
            i <= m,
            m <= v@.len(),
            out@ == v@.subrange(0, i as int),
        decreases m - i,
    {
        out.push(v[i]);
        i = i + 1;
        proof {
            assert(v@.subrange(0, i - 1).push(v@[i - 1]) =~= v@.subrange(0, i as int));
        }
    }
    proof {
        if n > v@.len() {
            assert(v@.subrange(0, v@.len() as int) =~= v@);
        }
    }
    out
}

/// Splits on a separator character; every segment is emitted, even empty ones.
pub open spec fn split_from(s: Seq<char>, sep: char, cur: Seq<char>) -> Seq<Seq<char>>
    decreases s.len(),
{
    if s.len() == 0 {
        seq![cur]
    } else if s[0] == sep {
        seq![cur] + split_from(s.drop_first(), sep, Seq::empty())
    } else {
        split_from(s.drop_first(), sep, cur.push(s[0]))
    }
}

/// The segments of `s` between occurrences of `sep`.
pub open spec fn split_seq(s: Seq<char>, sep: char) -> Seq<Seq<char>> {
    split_from(s, sep, Seq::empty())
}

/// Executable splitting on a separator character.
pub fn split_char(v: &Vec<char>, sep: char) -> (r: Vec<Vec<char>>)
    ensures
        views_of(r@) == split_seq(v@, sep),
{
    let mut out: Vec<Vec<char>> = Vec::new();
    let mut cur: Vec<char> = Vec::new();
    let mut i: usize = 0;
    proof {
        assert(v@.skip(0) =~= v@);
        assert(views_of(out@) =~= Seq::<Seq<char>>::empty());
        assert(Seq::<Seq<char>>::empty() + split_from(v@, sep, Seq::empty()) =~= split_from(
            v@,
            sep,
            Seq::empty(),
        ));
        assert(cur@ =~= Seq::<char>::empty());
    }
    while i < v.len()
        invariant
            i <= v.len(),
            split_seq(v@, sep) == views_of(out@) + split_from(v@.skip(i as int), sep, cur@),
        decreases v.len() - i,
    {
        let c = v[i];
        proof {
            assert(v@.skip(i as int).drop_first() =~= v@.skip(i as int + 1));
            assert(v@.skip(i as int)[0] == v@[i as int]);
        }
        if c == sep {
            proof {
                assert(views_of(out@.push(cur)) =~= views_of(out@).push(cur@));
                assert(views_of(out@) + (seq![cur@] + split_from(
                    v@.skip(i as int + 1),
                    sep,
                    Seq::empty(),
                )) =~= views_of(out@.push(cur)) + split_from(
                    v@.skip(i as int + 1),
                    sep,
                    Seq::empty(),
                ));
            }
            out.push(cur);
            cur = Vec::new();
            proof {
                assert(cur@ =~= Seq::<char>::empty());
            }
        } else {
            cur.push(c);
        }
        i = i + 1;
    }
    proof {
        assert(v@.skip(v@.len() as int) =~= Seq::<char>::empty());
        assert(views_of(out@.push(cur)) =~= views_of(out@).push(cur@));
        assert(views_of(out@) + seq![cur@] =~= views_of(out@.push(cur)));
    }
    out.push(cur);
    out
}

/// The lines of a text: segments between newline characters, with a final
/// newline producing no empty trailing line.
pub open spec fn lines_of(s: Seq<char>) -> Seq<Seq<char>> {
    if s.len() == 0 {
        Seq::empty()
    } else if s.last() == '\n' {
        split_seq(s.drop_last(), '\n')
    } else {
        split_seq(s, '\n')
    }
}

/// Executable counterpart of `lines_of`.
pub fn split_lines(v: &Vec<char>) -> (r: Vec<Vec<char>>)
    ensures
        views_of(r@) == lines_of(v@),
{
    if v.len() == 0 {
        let out: Vec<Vec<char>> = Vec::new();
        proof {
            assert(views_of(out@) =~= Seq::<Seq<char>>::empty());
        }
        return out;
    }
    if v[v.len() - 1] == '\n' {
        let trimmed = clip_chars(v, v.len() - 1);
        proof {
            assert(trimmed@ =~= v@.drop_last());
        }
        split_char(&trimmed, '\n')
    } else {
        split_char(v, '\n')
    }
}

/// Segments joined by a separator text.
pub open spec fn join_sep(ws: Seq<Seq<char>>, sep: Seq<char>) -> Seq<char>
    decreases ws.len(),
{
    if ws.len() == 0 {
        Seq::empty()
    } else if ws.len() == 1 {
        ws[0]
    } else {
        ws[0] + sep + join_sep(ws.drop_first(), sep)
    }
}

/// Appending one more segment to a joined sequence inserts one separator.
pub proof fn lemma_join_sep_push(ws: Seq<Seq<char>>, w: Seq<char>, sep: Seq<char>)
    requires
        ws.len() > 0,
    ensures
        join_sep(ws.push(w), sep) == join_sep(ws, sep) + sep + w,
    decreases ws.len(),
{
    if ws.len() == 1 {
        assert(ws.push(w).drop_first() =~= seq![w]);
        assert(join_sep(seq![w], sep) == w);
        assert(ws.push(w)[0] == ws[0]);
        assert(join_sep(ws.push(w), sep) =~= join_sep(ws, sep) + sep + w);
    } else {
        assert(ws.push(w).drop_first() =~= ws.drop_first().push(w));
        lemma_join_sep_push(ws.drop_first(), w, sep);
        assert(ws.push(w)[0] == ws[0]);
        assert(join_sep(ws.push(w), sep) =~= join_sep(ws, sep) + sep + w);
    }
}

/// The views of a sequence of strings.
pub open spec fn str_views(v: Seq<String>) -> Seq<Seq<char>> {
    v.map_values(|s: String| s@)
}

/// Joins strings with a separator text between them.
pub fn join_strings(parts: &Vec<String>, sep: &str) -> (r: String)
    ensures
        r@ == join_sep(str_views(parts@), sep@),
{
    let mut out = String::new();
    let mut i: usize = 0;
    proof {
        assert(str_views(parts@).take(0) =~= Seq::<Seq<char>>::empty());
        assert(str_views(parts@).len() == parts@.len());
    }
    while i < parts.len()
        invariant
            i <= parts@.len(),
            str_views(parts@).len() == parts@.len(),
            out@ == join_sep(str_views(parts@).take(i as int), sep@),
        decreases parts.len() - i,
    {
        proof {
            assert(str_views(parts@).take(i as int + 1) =~= str_views(parts@).take(i as int).push(
                parts@[i as int]@,
            ));
        }
        if i > 0 {
            out.append(sep);
            proof {
                lemma_join_sep_push(str_views(parts@).take(i as int), parts@[i as int]@, sep@);
            }
        } else {
            proof {
                assert(str_views(parts@).take(1) =~= seq![parts@[0]@]);
            }
        }
        out.append(parts[i].as_str());
        i = i + 1;
    }
    proof {
        assert(str_views(parts@).take(parts@.len() as int) =~= str_views(parts@));
    }
    out
}

/// The pattern stands at the very start of `s`.
pub open spec fn starts_with(s: Seq<char>, pat: Seq<char>) -> bool {
    contains_at(s, pat, 0)
}

/// Tests whether `s` begins with the pattern.
pub fn starts_with_chars(s: &Vec<char>, pat: &Vec<char>) -> (r: bool)
    ensures
        r == starts_with(s@, pat@),
{
    if pat.len() > s.len() {
        return false;
    }
    matches_at(s, pat, 0)
}

/// A word: nonempty and free of whitespace.
pub open spec fn wf_word(w: Seq<char>) -> bool {
    w.len() > 0 && forall|k: int| 0 <= k < w.len() ==> !is_space_char(w[k])
}

/// Every entry is a word.
pub open spec fn wf_words(ws: Seq<Seq<char>>) -> bool {
    forall|i: int| 0 <= i < ws.len() ==> wf_word(ws[i])
}

/// The splitter only produces words: nonempty, whitespace-free tokens.
pub proof fn lemma_words_from_wf(s: Seq<char>, cur: Seq<char>)
    requires
        forall|k: int| 0 <= k < cur.len() ==> !is_space_char(cur[k]),
    ensures
        wf_words(words_from(s, cur)),
    decreases s.len(),
{
    if s.len() == 0 {
    } else if is_space_char(s[0]) {
        lemma_words_from_wf(s.drop_first(), Seq::empty());
        if cur.len() > 0 {
            assert forall|i: int| 0 <= i < words_from(s, cur).len() implies wf_word(
                words_from(s, cur)[i],
            ) by {
                if i == 0 {
                    assert(words_from(s, cur)[0] == cur);
                } else {
                    assert(words_from(s, cur)[i] == words_from(s.drop_first(), Seq::empty())[i
                        - 1]);
                }
            }
        }
    } else {
        lemma_words_from_wf(s.drop_first(), cur.push(s[0]));
    }
}

/// `wf_words` holds of the words of any text.
pub proof fn lemma_words_wf(s: Seq<char>)
    ensures
        wf_words(words(s)),
{
    lemma_words_from_wf(s, Seq::empty());
}

/// Scanning a whitespace-free prefix only extends the pending word.
pub proof fn lemma_words_from_shift(w: Seq<char>, t: Seq<char>, cur: Seq<char>)
    requires
        forall|k: int| 0 <= k < w.len() ==> !is_space_char(w[k]),
    ensures
        words_from(w + t, cur) == words_from(t, cur + w),
    decreases w.len(),
{
    if w.len() == 0 {
        assert(w + t =~= t);
        assert(cur + w =~= cur);
    } else {
        assert((w + t)[0] == w[0]);
        assert((w + t).drop_first() =~= w.drop_first() + t);
        assert(cur.push(w[0]) + w.drop_first() =~= cur + w);
        lemma_words_from_shift(w.drop_first(), t, cur.push(w[0]));
    }
}

/// A single word splits to itself.
pub proof fn lemma_words_of_word(w: Seq<char>)
    requires
        wf_word(w),
    ensures
        words(w) == seq![w],
{
    assert(w + Seq::<char>::empty() =~= w);
    lemma_words_from_shift(w, Seq::empty(), Seq::empty());
    assert(Seq::<char>::empty() + w =~= w);
}

/// Splitting inverts joining: the words of a space-joined word list are the
/// list itself.
pub proof fn lemma_words_join(ws: Seq<Seq<char>>)
    requires
        wf_words(ws),
    ensures
        words(join_words(ws, ' ')) == ws,
    decreases ws.len(),
{
    if ws.len() == 0 {
        assert(words(join_words(ws, ' ')) =~= ws);
    } else if ws.len() == 1 {
        assert(wf_word(ws[0]));
        lemma_words_of_word(ws[0]);
        assert(seq![ws[0]] =~= ws);
    } else {
        let rest = ws.drop_first();
        let restj = join_words(rest, ' ');
        assert(wf_words(rest)) by {
            assert(forall|i: int| 0 <= i < rest.len() ==> rest[i] == ws[i + 1]);
        }
        lemma_words_join(rest);
        assert(ws[0] + seq![' '] + restj =~= ws[0] + (seq![' '] + restj));
        lemma_words_from_shift(ws[0], seq![' '] + restj, Seq::empty());
        assert(Seq::<char>::empty() + ws[0] =~= ws[0]);
        assert((seq![' '] + restj).drop_first() =~= restj);
        assert((seq![' '] + restj)[0] == ' ');
        assert(words_from(seq![' '] + restj, ws[0]) == seq![ws[0]] + words_from(
            restj,
            Seq::empty(),
        ));
        assert(seq![ws[0]] + rest =~= ws);
    }
}

} // verus!
