//! Quote stripping.  A text is scanned line by line; every line containing
//! the quote marker toggles an "inside quoted block" flag and is itself
//! dropped, and lines inside a quoted block are dropped.  Kept lines lose
//! their degenerate overlong tokens (base64 blobs, minified code) before
//! being re-emitted.  An odd number of marker lines leaves the toggle set,
//! so the remainder of the text is dropped; that is the inherited behaviour
//! and is preserved deliberately.

use vstd::prelude::*;

use crate::text::{
    words, join_words, views_of, contains_seq, lines_of, str_chars, split_words, split_lines,
    contains_chars, chars_to_string,
};

verus! {

/// Tokens at least this long are treated as unsummarizable noise.
pub const LONG_TOKEN_LIMIT: usize = 150;

/// The words of a line with overlong tokens removed, scanning from the end.
pub open spec fn keep_short(ws: Seq<Seq<char>>) -> Seq<Seq<char>>
    decreases ws.len(),
{
    if ws.len() == 0 {
        Seq::empty()
    } else if ws.last().len() < LONG_TOKEN_LIMIT {
        keep_short(ws.drop_last()).push(ws.last())
    } else {
        keep_short(ws.drop_last())
    }
}

/// A kept line: its words, minus overlong tokens, rejoined with single
/// spaces.
pub open spec fn clean_line_spec(line: Seq<char>) -> Seq<char> {
    join_words(keep_short(words(line)), ' ')
}

/// How many of the first `k` lines contain the quote marker.
pub open spec fn toggles_before(ls: Seq<Seq<char>>, m: Seq<char>, k: int) -> int
    decreases k,
{
    if k <= 0 {
        0
    } else {
        toggles_before(ls, m, k - 1) + (if contains_seq(ls[k - 1], m) {
            1int
        } else {
            0int
        })
    }
}

/// Line `k` survives stripping: it holds no marker and stands outside any
/// quoted block.
pub open spec fn line_kept(ls: Seq<Seq<char>>, m: Seq<char>, k: int) -> bool {
    !contains_seq(ls[k], m) && toggles_before(ls, m, k) % 2 == 0
}

/// The stripped output of the first `k` lines.
pub open spec fn strip_acc(ls: Seq<Seq<char>>, m: Seq<char>, k: int) -> Seq<char>
    decreases k,
{
    if k <= 0 {
        Seq::empty()
    } else {
        strip_acc(ls, m, k - 1) + (if line_kept(ls, m, k - 1) {
            clean_line_spec(ls[k - 1]).push('\n')
        } else {
            Seq::empty()
        })
    }
}

/// The stripped form of a whole text.
pub open spec fn strip_spec(s: Seq<char>, m: Seq<char>) -> Seq<char> {
    strip_acc(lines_of(s), m, lines_of(s).len() as int)
}

/// Removes overlong tokens from a split line.
fn filter_short(ws: &Vec<Vec<char>>) -> (r: Vec<Vec<char>>)
    ensures
        views_of(r@) == keep_short(views_of(ws@)),
{
    let mut out: Vec<Vec<char>> = Vec::new();
    let mut i: usize = 0;
    proof {
        assert(views_of(ws@).len() == ws@.len());
        assert(views_of(ws@).take(0) =~= Seq::<Seq<char>>::empty());
        assert(views_of(out@) =~= keep_short(views_of(ws@).take(0)));
    }
    while i < ws.len()
        invariant
            i <= ws@.len(),
            views_of(out@) == keep_short(views_of(ws@).take(i as int)),
        decreases ws.len() - i,
    {
        proof {
            assert(views_of(ws@).take(i as int + 1).drop_last() =~= views_of(ws@).take(i as int));
            assert(views_of(ws@).take(i as int + 1).last() == ws@[i as int]@);
        }
        if ws[i].len() < LONG_TOKEN_LIMIT {
            let w = crate::budget::copy_chars(&ws[i]);
            proof {
                assert(views_of(out@.push(w)) =~= views_of(out@).push(w@));
            }
            out.push(w);
        }
        i = i + 1;
    }
    proof {
        assert(views_of(ws@).take(ws@.len() as int) =~= views_of(ws@));
    }
    out
}

/// Appends the characters of `add` to `out`.
pub fn extend_chars(out: &mut Vec<char>, add: &Vec<char>)
    ensures
        final(out)@ == old(out)@ + add@,
{
    let mut i: usize = 0;
    proof {
        assert(old(out)@ + add@.subrange(0, 0) =~= old(out)@);
    }
    while i < add.len()
        invariant
            i <= add@.len(),
            out@ == old(out)@ + add@.subrange(0, i as int),
        decreases add.len() - i,
    {
        out.push(add[i]);
        i = i + 1;
        proof {
            assert(old(out)@ + add@.subrange(0, i - 1) + seq![add@[i - 1]] =~= old(out)@
                + add@.subrange(0, i as int));
        }
    }
    proof {
        assert(add@.subrange(0, add@.len() as int) =~= add@);
    }
}

/// Strips quoted blocks and overlong tokens from a text.
///
/// Each line containing `quote_marker` toggles the quoted state and is
/// dropped; lines inside a quoted block are dropped; every kept line is
/// re-emitted with overlong tokens removed, words separated by single
/// spaces, and a trailing newline.
pub fn strip(text: &str, quote_marker: &str) -> (r: String)
    ensures
        r@ == strip_spec(text@, quote_marker@),
{
    let chars = str_chars(text);
    let lines = split_lines(&chars);
    let marker = str_chars(quote_marker);
    let ghost ls = lines_of(text@);
    proof {
        assert(views_of(lines@).len() == lines@.len());
    }
    let mut out: Vec<char> = Vec::new();
    let mut inside = false;
    let mut i: usize = 0;
    while i < lines.len()
        invariant
            i <= lines@.len(),
            views_of(lines@) == ls,
            marker@ == quote_marker@,
            inside == (toggles_before(ls, quote_marker@, i as int) % 2 == 1),
            out@ == strip_acc(ls, quote_marker@, i as int),
        decreases lines.len() - i,
    {
        let line = &lines[i];
        let has_marker = contains_chars(line, &marker);
        proof {
            assert(ls[i as int] == lines@[i as int]@);
        }
        if has_marker {
            inside = !inside;
        } else if !inside {
            let ws = split_words(line);
            let short = filter_short(&ws);
            let cleaned = crate::text::join_with(&short, ' ');
            proof {
                assert(cleaned@ == clean_line_spec(ls[i as int]));
                assert(line_kept(ls, quote_marker@, i as int));
            }
            extend_chars(&mut out, &cleaned);
            out.push('\n');
            proof {
                assert(out@ =~= strip_acc(ls, quote_marker@, i as int) + clean_line_spec(
                    ls[i as int],
                ).push('\n'));
            }
        } else {
            proof {
                assert(!line_kept(ls, quote_marker@, i as int));
                assert(out@ + Seq::<char>::empty() =~= out@);
            }
        }
        i = i + 1;
    }
    proof {
        if i == lines@.len() {
            assert(out@ == strip_spec(text@, quote_marker@));
        }
    }
    chars_to_string(&out)
}

/// Marker counting does not change across a marker-free stretch of lines.
pub proof fn lemma_toggles_constant(ls: Seq<Seq<char>>, m: Seq<char>, from: int, to: int)
    requires
        0 <= from <= to,
        forall|t: int| from <= t < to ==> !contains_seq(ls[t], m),
    ensures
        toggles_before(ls, m, to) == toggles_before(ls, m, from),
    decreases to - from,
{
    if to > from {
        lemma_toggles_constant(ls, m, from, to - 1);
    }
}

/// A line standing between a matched pair of marker lines is dropped: the
/// opening marker line `i` starts a quoted block (an even number of marker
/// lines precedes it), no further marker line stands before line `k`, so
/// line `k` lies inside the block and never reaches the output.
pub proof fn lemma_enclosed_line_dropped(ls: Seq<Seq<char>>, m: Seq<char>, i: int, k: int)
    requires
        0 <= i < k < ls.len(),
        contains_seq(ls[i], m),
        toggles_before(ls, m, i) % 2 == 0,
        forall|t: int| i < t < k ==> !contains_seq(ls[t], m),
    ensures
        !line_kept(ls, m, k),
{
    lemma_toggles_constant(ls, m, i + 1, k);
    assert(toggles_before(ls, m, i + 1) == toggles_before(ls, m, i) + 1);
}

/// A marker line itself is always dropped.
pub proof fn lemma_marker_line_dropped(ls: Seq<Seq<char>>, m: Seq<char>, k: int)
    requires
        0 <= k < ls.len(),
        contains_seq(ls[k], m),
    ensures
        !line_kept(ls, m, k),
{
}

/// With no marker anywhere, every line is kept: the output is the input
/// line for line, with only overlong-token filtering applied.
pub proof fn lemma_no_marker_keeps_lines(ls: Seq<Seq<char>>, m: Seq<char>)
    requires
        forall|t: int| 0 <= t < ls.len() ==> !contains_seq(ls[t], m),
    ensures
        forall|k: int| 0 <= k < ls.len() ==> line_kept(ls, m, k),
{
    assert forall|k: int| 0 <= k < ls.len() implies line_kept(ls, m, k) by {
        lemma_toggles_constant(ls, m, 0, k);
    }
}

} // verus!
