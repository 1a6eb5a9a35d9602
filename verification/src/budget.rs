//! Head/tail text budgeting.  When a text exceeds its word budget, the
//! beginning and the end are kept and the middle is dropped: prose tends to
//! state context early and conclusions late, so the middle is the cheapest
//! span to lose.  Ratios are expressed in whole percent so that the policies
//! stay exact integer arithmetic.

use vstd::prelude::*;

use crate::text::{
    words, join_words, wf_words, wf_word, views_of, lemma_words_wf, lemma_words_join, str_chars,
    split_words, join_with, chars_to_string,
};

verus! {

/// Number of words kept from the head: `ceil(max * head_percent / 100)`.
pub open spec fn head_share(max: int, head_percent: int) -> int {
    (max * head_percent + 99) / 100
}

/// Words kept by the head/tail retention policy once `ws` exceeds `max`.
pub open spec fn head_tail(ws: Seq<Seq<char>>, max: int, head_percent: int) -> Seq<Seq<char>> {
    let h = head_share(max, head_percent);
    let t = max - h;
    ws.take(h) + ws.skip(ws.len() - t)
}

/// The word-count policy: unchanged when within budget, otherwise the head
/// and tail words rejoined with single spaces.
pub open spec fn fit_words_spec(s: Seq<char>, max: int, head_percent: int) -> Seq<char> {
    if words(s).len() <= max {
        s
    } else {
        join_words(head_tail(words(s), max, head_percent), ' ')
    }
}

/// The head share never exceeds the budget itself.
pub proof fn lemma_head_share_range(max: int, head_percent: int)
    requires
        0 <= max,
        0 <= head_percent <= 100,
    ensures
        0 <= head_share(max, head_percent) <= max,
{
    assert(max * head_percent >= 0) by (nonlinear_arith)
        requires
            0 <= max,
            0 <= head_percent,
    ;
    assert(max * head_percent <= max * 100) by (nonlinear_arith)
        requires
            0 <= max,
            head_percent <= 100,
    ;
    assert((max * 100 + 99) / 100 == max) by {
        vstd::arithmetic::div_mod::lemma_fundamental_div_mod_converse(
            max * 100 + 99,
            100,
            max,
            99,
        );
    }
    vstd::arithmetic::div_mod::lemma_div_is_ordered(
        max * head_percent + 99,
        max * 100 + 99,
        100,
    );
}

/// The retained words are words of the original text, in order.
proof fn lemma_head_tail_wf(ws: Seq<Seq<char>>, max: int, head_percent: int)
    requires
        wf_words(ws),
        0 <= max < ws.len(),
        0 <= head_percent <= 100,
    ensures
        wf_words(head_tail(ws, max, head_percent)),
        head_tail(ws, max, head_percent).len() == max,
{
    lemma_head_share_range(max, head_percent);
    let h = head_share(max, head_percent);
    let t = max - h;
    let kept = head_tail(ws, max, head_percent);
    assert(kept.len() == max);
    assert forall|i: int| 0 <= i < kept.len() implies wf_word(kept[i]) by {
        if i < h {
            assert(kept[i] == ws[i]);
        } else {
            assert(kept[i] == ws[ws.len() - t + (i - h)]);
        }
    }
}

/// The word-count policy never emits more than `max` words, and a text
/// already within budget comes back unchanged.
pub proof fn lemma_fit_words_bound(s: Seq<char>, max: int, head_percent: int)
    requires
        0 <= max,
        0 <= head_percent <= 100,
    ensures
        words(fit_words_spec(s, max, head_percent)).len() <= max,
        words(s).len() <= max ==> fit_words_spec(s, max, head_percent) == s,
{
    if words(s).len() > max {
        lemma_words_wf(s);
        lemma_head_tail_wf(words(s), max, head_percent);
        lemma_words_join(head_tail(words(s), max, head_percent));
    }
}

/// Copies a character vector.
pub fn copy_chars(v: &Vec<char>) -> (r: Vec<char>)
    ensures
        r@ == v@,
{
    let r = crate::text::clip_chars(v, v.len());
    proof {
        assert(v@.take(v@.len() as int) =~= v@);
    }
    r
}

/// Copies a token vector.
pub fn copy_u32s(v: &Vec<u32>) -> (r: Vec<u32>)
    ensures
        r@ == v@,
{
    let mut out: Vec<u32> = Vec::new();
    let mut i: usize = 0;
    while i < v.len()
        invariant
            i <= v@.len(),
            out@ == v@.take(i as int),
        decreases v.len() - i,
    {
        out.push(v[i]);
        i = i + 1;
        proof {
            assert(v@.take(i - 1).push(v@[i - 1]) =~= v@.take(i as int));
        }
    }
    proof {
        assert(v@.take(v@.len() as int) =~= v@);
    }
    out
}

/// Word-count head/tail budgeting of a text.
///
/// Splits on whitespace; when the word count exceeds `max_words`, keeps
/// `ceil(max_words * head_percent / 100)` words from the start and the
/// remaining budget from the end, rejoined with single spaces.
pub fn fit_by_words(text: &str, max_words: usize, head_percent: usize) -> (r: String)
    requires
        head_percent <= 100,
    ensures
        r@ == fit_words_spec(text@, max_words as int, head_percent as int),
        words(r@).len() <= max_words,
        words(text@).len() <= max_words ==> r@ == text@,
{
    proof {
        lemma_fit_words_bound(text@, max_words as int, head_percent as int);
    }
    let chars = str_chars(text);
    let ws = split_words(&chars);
    proof {
        assert(views_of(ws@).len() == ws@.len());
    }
    if ws.len() <= max_words {
        return text.to_owned();
    }
    proof {
        lemma_head_share_range(max_words as int, head_percent as int);
    }
    let h128: u128 = (max_words as u128 * head_percent as u128 + 99) / 100;
    let h: usize = h128 as usize;
    proof {
        assert(h as int == head_share(max_words as int, head_percent as int));
    }
    let t = max_words - h;
    let start_tail = ws.len() - t;
    let mut kept: Vec<Vec<char>> = Vec::new();
    let mut i: usize = 0;
    proof {
        assert(views_of(kept@) =~= views_of(ws@).take(0));
    }
    while i < h
        invariant
            i <= h,
            h <= ws@.len(),
            views_of(kept@) == views_of(ws@).take(i as int),
        decreases h - i,
    {
        let w = copy_chars(&ws[i]);
        proof {
            assert(views_of(kept@.push(w)) =~= views_of(kept@).push(w@));
            assert(views_of(ws@).take(i as int).push(ws@[i as int]@) =~= views_of(ws@).take(
                i as int + 1,
            ));
        }
        kept.push(w);
        i = i + 1;
    }
    let mut j: usize = start_tail;
    while j < ws.len()
        invariant
            start_tail <= j <= ws@.len(),
            start_tail == ws@.len() - (max_words - h),
            h <= max_words,
            views_of(kept@) == views_of(ws@).take(h as int) + views_of(ws@).subrange(
                start_tail as int,
                j as int,
            ),
        decreases ws.len() - j,
    {
        let w = copy_chars(&ws[j]);
        proof {
            assert(views_of(kept@.push(w)) =~= views_of(kept@).push(w@));
            assert(views_of(ws@).take(h as int) + views_of(ws@).subrange(
                start_tail as int,
                j as int,
            ) + seq![ws@[j as int]@] =~= views_of(ws@).take(h as int) + views_of(ws@).subrange(
                start_tail as int,
                j as int + 1,
            ));
        }
        kept.push(w);
        j = j + 1;
    }
    proof {
        assert(views_of(ws@).subrange(start_tail as int, ws@.len() as int) =~= views_of(
            ws@,
        ).skip(start_tail as int));
        assert(views_of(kept@) =~= head_tail(
            words(text@),
            max_words as int,
            head_percent as int,
        ));
    }
    let joined = join_with(&kept, ' ');
    chars_to_string(&joined)
}

/// Number of words of the combined budget offered to the first text:
/// `floor(combined_max * split_percent / 100)`.
pub open spec fn pair_head_share(combined_max: int, split_percent: int) -> int {
    (combined_max * split_percent) / 100
}

/// The dual-source word policy: when the two texts together exceed the
/// combined budget, the first is cut to its share if it is over that share;
/// otherwise the second is cut to whatever the first leaves over.
pub open spec fn fit_pair_spec(a: Seq<char>, b: Seq<char>, combined_max: int, split_percent: int)
    -> (Seq<char>, Seq<char>) {
    let la = words(a).len() as int;
    let lb = words(b).len() as int;
    if la + lb <= combined_max {
        (a, b)
    } else {
        let ta = pair_head_share(combined_max, split_percent);
        if la > ta {
            (join_words(words(a).take(ta), ' '), b)
        } else {
            let tb = combined_max - la;
            if lb > tb {
                (a, join_words(words(b).take(tb), ' '))
            } else {
                (a, b)
            }
        }
    }
}

/// The first text's share never exceeds the combined budget.
pub proof fn lemma_pair_head_share_range(combined_max: int, split_percent: int)
    requires
        0 <= combined_max,
        0 <= split_percent <= 100,
    ensures
        0 <= pair_head_share(combined_max, split_percent) <= combined_max,
{
    assert(combined_max * split_percent >= 0) by (nonlinear_arith)
        requires
            0 <= combined_max,
            0 <= split_percent,
    ;
    assert(combined_max * split_percent <= combined_max * 100) by (nonlinear_arith)
        requires
            0 <= combined_max,
            split_percent <= 100,
    ;
    assert((combined_max * 100) / 100 == combined_max) by {
        vstd::arithmetic::div_mod::lemma_fundamental_div_mod_converse(
            combined_max * 100,
            100,
            combined_max,
            0,
        );
    }
    vstd::arithmetic::div_mod::lemma_div_is_ordered(
        combined_max * split_percent,
        combined_max * 100,
        100,
    );
}

/// A prefix of the words of a text is itself a well-formed word list.
proof fn lemma_take_words_wf(s: Seq<char>, n: int)
    requires
        0 <= n <= words(s).len(),
    ensures
        wf_words(words(s).take(n)),
        words(join_words(words(s).take(n), ' ')) == words(s).take(n),
{
    lemma_words_wf(s);
    assert forall|i: int| 0 <= i < words(s).take(n).len() implies wf_word(
        words(s).take(n)[i],
    ) by {
        assert(words(s).take(n)[i] == words(s)[i]);
    }
    lemma_words_join(words(s).take(n));
}

/// A first text within its share passes through the dual-source policy
/// unchanged.
pub proof fn lemma_fit_pair_first_kept(
    a: Seq<char>,
    b: Seq<char>,
    combined_max: int,
    split_percent: int,
)
    requires
        0 <= combined_max,
        0 <= split_percent <= 100,
        words(a).len() <= pair_head_share(combined_max, split_percent),
    ensures
        fit_pair_spec(a, b, combined_max, split_percent).0 == a,
{
}

/// The combined output stays within the combined budget, except when the
/// first text is over its share while the second alone already exceeds the
/// rest of the budget: then the second is deliberately left untouched.
pub proof fn lemma_fit_pair_bound(
    a: Seq<char>,
    b: Seq<char>,
    combined_max: int,
    split_percent: int,
)
    requires
        0 <= combined_max,
        0 <= split_percent <= 100,
        words(a).len() + words(b).len() <= combined_max || words(a).len() <= pair_head_share(
            combined_max,
            split_percent,
        ) || words(b).len() <= combined_max - pair_head_share(combined_max, split_percent),
    ensures
        ({
            let r = fit_pair_spec(a, b, combined_max, split_percent);
            words(r.0).len() + words(r.1).len() <= combined_max
        }),
{
    let la = words(a).len() as int;
    let lb = words(b).len() as int;
    lemma_pair_head_share_range(combined_max, split_percent);
    let ta = pair_head_share(combined_max, split_percent);
    if la + lb <= combined_max {
    } else if la > ta {
        lemma_take_words_wf(a, ta);
    } else {
        let tb = combined_max - la;
        if lb > tb {
            lemma_take_words_wf(b, tb);
        }
    }
}

/// Builds the first `n` words of a text, rejoined with single spaces.
fn take_words_joined(text: &str, n: usize) -> (r: String)
    requires
        n <= words(text@).len(),
    ensures
        r@ == join_words(words(text@).take(n as int), ' '),
{
    let chars = str_chars(text);
    let ws = split_words(&chars);
    proof {
        assert(views_of(ws@).len() == ws@.len());
    }
    let mut kept: Vec<Vec<char>> = Vec::new();
    let mut i: usize = 0;
    proof {
        assert(views_of(kept@) =~= views_of(ws@).take(0));
    }
    while i < n
        invariant
            i <= n,
            n <= ws@.len(),
            views_of(ws@) == words(text@),
            views_of(kept@) == views_of(ws@).take(i as int),
        decreases n - i,
    {
        let w = copy_chars(&ws[i]);
        proof {
            assert(views_of(kept@.push(w)) =~= views_of(kept@).push(w@));
            assert(views_of(ws@).take(i as int).push(ws@[i as int]@) =~= views_of(ws@).take(
                i as int + 1,
            ));
        }
        kept.push(w);
        i = i + 1;
    }
    let joined = join_with(&kept, ' ');
    chars_to_string(&joined)
}

/// Dual-source word budgeting: two texts share one combined budget.
///
/// If together they fit, both come back unchanged.  Otherwise the first text
/// is cut to `floor(combined_max * split_percent / 100)` words when it is
/// over that share; when it is within its share, the second text is cut to
/// the words the first leaves over.
pub fn fit_pair_by_words(a: &str, b: &str, combined_max: usize, split_percent: usize) -> (r: (
    String,
    String,
))
    requires
        split_percent <= 100,
    ensures
        (r.0@, r.1@) == fit_pair_spec(a@, b@, combined_max as int, split_percent as int),
{
    proof {
        lemma_pair_head_share_range(combined_max as int, split_percent as int);
    }
    let a_chars = str_chars(a);
    let a_words = split_words(&a_chars);
    let b_chars = str_chars(b);
    let b_words = split_words(&b_chars);
    proof {
        assert(views_of(a_words@).len() == a_words@.len());
        assert(views_of(b_words@).len() == b_words@.len());
    }
    let la = a_words.len();
    let lb = b_words.len();
    let total: u128 = la as u128 + lb as u128;
    if total <= combined_max as u128 {
        return (a.to_owned(), b.to_owned());
    }
    let ta128: u128 = (combined_max as u128 * split_percent as u128) / 100;
    let ta: usize = ta128 as usize;
    proof {
        assert(ta as int == pair_head_share(combined_max as int, split_percent as int));
    }
    if la > ta {
        (take_words_joined(a, ta), b.to_owned())
    } else {
        let tb = combined_max - la;
        if lb > tb {
            (a.to_owned(), take_words_joined(b, tb))
        } else {
            (a.to_owned(), b.to_owned())
        }
    }
}

} // verus!
