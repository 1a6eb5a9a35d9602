use activity_report::squeeze::squeeze_fit_post_texts;
use activity_report::tokens::fit_token_list;

#[test]
fn token_budgeting_keeps_short_texts() {
    let text = "a short sentence that easily fits";
    assert_eq!(squeeze_fit_post_texts(text, 500, 60), text);
}

#[test]
fn token_budgeting_matches_the_tokenizer() {
    // over budget, the head and tail tokens are kept and decoded; the
    // expectation is recomputed here straight from the tokenizer.
    let text = "alpha beta gamma delta epsilon zeta eta theta iota kappa lambda mu nu xi omicron pi rho sigma tau upsilon";
    let bpe = tiktoken_rs::cl100k_base().unwrap();
    let toks = bpe.encode_ordinary(text);
    assert!(toks.len() > 10);
    let head = (10 * 60 + 99) / 100;
    let tail = 10 - head;
    let mut kept = toks[..head].to_vec();
    kept.extend_from_slice(&toks[toks.len() - tail..]);
    let expected = bpe.decode(&kept).unwrap();
    assert_eq!(squeeze_fit_post_texts(text, 10, 60), expected);
}

#[test]
fn fit_token_list_trims_to_the_budget() {
    let toks: Vec<u32> = (0..100).collect();
    let out = fit_token_list(&toks, 10, 60);
    assert_eq!(out.len(), 10);
    // head = ceil(10 * 60 / 100) = 6 tokens, tail = 4 tokens.
    assert_eq!(&out[..6], &[0, 1, 2, 3, 4, 5]);
    assert_eq!(&out[6..], &[96, 97, 98, 99]);
}

#[test]
fn fit_token_list_keeps_short_lists() {
    let toks: Vec<u32> = vec![5, 6, 7];
    assert_eq!(fit_token_list(&toks, 10, 60), toks);
}
