//! The budgeting entry points under their historical names: quote-stripped
//! word budgeting, dual-source word budgeting for the commit/issue pair, and
//! tokenizer-measured budgeting.  Ratios are whole percentages.

use vstd::prelude::*;

use crate::budget::{fit_by_words, fit_pair_by_words, fit_words_spec, fit_pair_spec};
use crate::quote::{strip, strip_spec};
use crate::text::words;

verus! {

/// Combined word budget shared by the commit and issue texts before the
/// cross-source analysis; bounds provider cost per report.
pub const PAIR_WORD_BUDGET: usize = 44_000;

/// Strips quoted blocks and overlong tokens, then applies word-count
/// head/tail budgeting to what remains.
pub fn squeeze_fit_remove_quoted(
    inp_str: &str,
    quote_mark: &str,
    max_len: u16,
    split_percent: usize,
) -> (r: String)
    requires
        split_percent <= 100,
    ensures
        r@ == fit_words_spec(
            strip_spec(inp_str@, quote_mark@),
            max_len as int,
            split_percent as int,
        ),
        words(r@).len() <= max_len as nat,
{
    let stripped = strip(inp_str, quote_mark);
    fit_by_words(stripped.as_str(), max_len as usize, split_percent)
}

/// Budgets the commit text and the issue text against their shared word
/// budget, favouring whichever source is under budget.
pub fn squeeze_fit_commits_issues(commits: &str, issues: &str, split_percent: usize) -> (r: (
    String,
    String,
))
    requires
        split_percent <= 100,
    ensures
        (r.0@, r.1@) == fit_pair_spec(
            commits@,
            issues@,
            PAIR_WORD_BUDGET as int,
            split_percent as int,
        ),
{
    fit_pair_by_words(commits, issues, PAIR_WORD_BUDGET, split_percent)
}

/// Budgets a text by model-tokenizer token count rather than words.
pub fn squeeze_fit_post_texts(inp_str: &str, max_len: u16, split_percent: usize) -> (r: String)
    requires
        split_percent <= 100,
    ensures
        crate::tokens::cl100k_tokens_of(inp_str@).len() <= max_len as nat ==> r@ == inp_str@,
        crate::tokens::cl100k_tokens_of(inp_str@).len() > max_len as nat ==> r@
            == crate::tokens::cl100k_text_of(
            crate::tokens::fit_tokens_spec(
                crate::tokens::cl100k_tokens_of(inp_str@),
                max_len as int,
                split_percent as int,
            ),
        ) || r@ == "failed to decode tokens"@,
{
    crate::tokens::fit_by_tokens(inp_str, max_len as usize, split_percent)
}

} // verus!
