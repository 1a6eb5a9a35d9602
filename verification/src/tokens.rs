//! Token-count budgeting.  The same head/tail retention policy as the word
//! policy, but measured in model-tokenizer tokens, for text that will face
//! strict token accounting at the completion provider.  The tokenizer itself
//! is the `cl100k_base` encoding of the tiktoken-rs crate; its results are
//! named, not restated.

use vstd::prelude::*;

use crate::budget::head_share;

verus! {

/// The token sequence that the cl100k tokenizer assigns to a text; a
/// function of the text alone.
pub uninterp spec fn cl100k_tokens_of(s: Seq<char>) -> Seq<u32>;

/// The text that the cl100k tokenizer decodes a token sequence to, when it
/// decodes at all; a function of the tokens alone.
pub uninterp spec fn cl100k_text_of(ts: Seq<u32>) -> Seq<char>;

/// Relies on `tiktoken_rs::cl100k_base` and `CoreBPE::encode_ordinary`: the
/// vocabulary is embedded in the crate, so construction cannot fail, and the
/// encoding depends on the input text alone.
#[verifier::external_body]
fn encode_cl100k(s: &str) -> (r: Vec<u32>)
    ensures
        r@ == cl100k_tokens_of(s@),
{
    tiktoken_rs::cl100k_base().unwrap().encode_ordinary(s)
}

/// Relies on `tiktoken_rs::cl100k_base` and `CoreBPE::decode`: decoding
/// fails on token sequences that do not form valid UTF-8, and otherwise
/// depends on the tokens alone.
#[verifier::external_body]
fn decode_cl100k(ts: &Vec<u32>) -> (r: Option<String>)
    ensures
        r matches Some(s) ==> s@ == cl100k_text_of(ts@),
{
    tiktoken_rs::cl100k_base().ok().and_then(|bpe| bpe.decode(ts).ok())
}

/// The token-count policy on an already-encoded token list.
pub open spec fn fit_tokens_spec(ts: Seq<u32>, max: int, head_percent: int) -> Seq<u32> {
    if ts.len() <= max {
        ts
    } else {
        let h = head_share(max, head_percent);
        ts.take(h) + ts.skip(ts.len() - (max - h))
    }
}

/// Head/tail retention on a token list: unchanged within budget, otherwise
/// exactly `max` tokens, the head share from the start and the rest from
/// the end.
pub fn fit_token_list(ts: &Vec<u32>, max: usize, head_percent: usize) -> (r: Vec<u32>)
    requires
        head_percent <= 100,
    ensures
        r@ == fit_tokens_spec(ts@, max as int, head_percent as int),
        r@.len() <= max || r@ == ts@,
        ts@.len() > max ==> r@.len() == max,
{
    if ts.len() <= max {
        return crate::budget::copy_u32s(ts);
    }
    proof {
        crate::budget::lemma_head_share_range(max as int, head_percent as int);
    }
    let h128: u128 = (max as u128 * head_percent as u128 + 99) / 100;
    let h: usize = h128 as usize;
    proof {
        assert(h as int == head_share(max as int, head_percent as int));
    }
    let t = max - h;
    let start_tail = ts.len() - t;
    let mut out: Vec<u32> = Vec::new();
    let mut i: usize = 0;
    proof {
        assert(out@ =~= ts@.take(0));
    }
    while i < h
        invariant
            i <= h,
            h <= ts@.len(),
            out@ == ts@.take(i as int),
        decreases h - i,
    {
        out.push(ts[i]);
        i = i + 1;
        proof {
            assert(ts@.take(i - 1).push(ts@[i - 1]) =~= ts@.take(i as int));
        }
    }
    let mut j: usize = start_tail;
    while j < ts.len()
        invariant
            start_tail <= j <= ts@.len(),
            start_tail == ts@.len() - (max - h),
            h <= max,
            out@ == ts@.take(h as int) + ts@.subrange(start_tail as int, j as int),
        decreases ts.len() - j,
    {
        out.push(ts[j]);
        j = j + 1;
        proof {
            assert(ts@.take(h as int) + ts@.subrange(start_tail as int, j - 1) + seq![ts@[j - 1]]
                =~= ts@.take(h as int) + ts@.subrange(start_tail as int, j as int));
        }
    }
    proof {
        assert(ts@.subrange(start_tail as int, ts@.len() as int) =~= ts@.skip(start_tail as int));
    }
    out
}

/// Token-count head/tail budgeting of a text.
///
/// Within budget, the text comes back unchanged.  Over budget, the head and
/// tail tokens are retained and decoded; if the trimmed token list does not
/// decode, a fixed note takes its place.
pub fn fit_by_tokens(text: &str, max_tokens: usize, head_percent: usize) -> (r: String)
    requires
        head_percent <= 100,
    ensures
        cl100k_tokens_of(text@).len() <= max_tokens ==> r@ == text@,
        cl100k_tokens_of(text@).len() > max_tokens ==> r@ == cl100k_text_of(
            fit_tokens_spec(cl100k_tokens_of(text@), max_tokens as int, head_percent as int),
        ) || r@ == "failed to decode tokens"@,
{
    let toks = encode_cl100k(text);
    if toks.len() <= max_tokens {
        return text.to_owned();
    }
    let trimmed = fit_token_list(&toks, max_tokens, head_percent);
    match decode_cl100k(&trimmed) {
        Some(s) => s,
        None => "failed to decode tokens".to_owned(),
    }
}

} // verus!
