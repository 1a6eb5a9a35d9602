use activity_report::chain::{ChatChain, ChainFailure, ChainPhase, ChatModelKind, SystemContext,
    MIN_REPLY_CHARS, TEMPERATURE_PERCENT};

fn fresh_chain() -> ChatChain {
    ChatChain::new(
        "system".to_string(),
        "first question".to_string(),
        512,
        "second question".to_string(),
        256,
        "corr-id".to_string(),
    )
}

#[test]
fn first_request_restarts_with_fresh_context() {
    let chain = fresh_chain();
    assert!(matches!(chain.phase, ChainPhase::Pending));
    let req = chain.first_request();
    assert!(req.restart);
    assert!(matches!(req.model, ChatModelKind::LargeContext));
    assert_eq!(req.max_output_tokens, 512);
    assert_eq!(req.temperature_percent, TEMPERATURE_PERCENT);
    match req.context {
        SystemContext::Fresh(s) => assert_eq!(s, "system"),
        SystemContext::Threaded(_) => panic!("first call must not thread a conversation"),
    }
}

#[test]
fn second_request_threads_the_conversation_verbatim() {
    let mut chain = fresh_chain();
    let req2 = chain.absorb_first_reply(Some("the analysis reply".to_string())).unwrap();
    assert!(matches!(chain.phase, ChainPhase::FirstCallDone));
    assert!(!req2.restart);
    assert_eq!(req2.user_prompt, "second question");
    assert_eq!(req2.max_output_tokens, 256);
    match req2.context {
        SystemContext::Threaded(conv) => {
            assert_eq!(conv.system_prompt, "system");
            assert_eq!(conv.user_prompt_1, "first question");
            assert_eq!(conv.assistant_reply_1, "the analysis reply");
        },
        SystemContext::Fresh(_) => panic!("second call must thread the conversation"),
    }
}

#[test]
fn provider_error_on_first_call_fails_the_chain() {
    let mut chain = fresh_chain();
    let r = chain.absorb_first_reply(None);
    assert!(matches!(r, Err(ChainFailure::ProviderError)));
    assert!(matches!(chain.phase, ChainPhase::Failed));
}

#[test]
fn provider_error_on_second_call_fails_the_chain() {
    let mut chain = fresh_chain();
    chain.absorb_first_reply(Some("analysis".to_string())).unwrap();
    let r = chain.absorb_second_reply(None);
    assert!(matches!(r, Err(ChainFailure::ProviderError)));
    assert!(matches!(chain.phase, ChainPhase::Failed));
}

#[test]
fn short_second_reply_is_degenerate() {
    // call one succeeds, call two replies "ok": two characters is under the
    // ten-character gate, so the chain fails rather than returning "ok".
    let mut chain = fresh_chain();
    chain.absorb_first_reply(Some("a perfectly fine analysis".to_string())).unwrap();
    let r = chain.absorb_second_reply(Some("ok".to_string()));
    assert!(matches!(r, Err(ChainFailure::DegenerateOutput)));
    assert!(matches!(chain.phase, ChainPhase::Failed));
}

#[test]
fn nine_characters_still_fail_the_gate() {
    let mut chain = fresh_chain();
    chain.absorb_first_reply(Some("analysis".to_string())).unwrap();
    let reply = "x".repeat(MIN_REPLY_CHARS - 1);
    let r = chain.absorb_second_reply(Some(reply));
    assert!(matches!(r, Err(ChainFailure::DegenerateOutput)));
}

#[test]
fn ten_characters_pass_the_gate() {
    let mut chain = fresh_chain();
    chain.absorb_first_reply(Some("analysis".to_string())).unwrap();
    let reply = "x".repeat(MIN_REPLY_CHARS);
    let r = chain.absorb_second_reply(Some(reply.clone()));
    assert_eq!(r.unwrap(), reply);
    assert!(matches!(chain.phase, ChainPhase::Complete));
}

#[test]
fn full_chain_returns_the_second_reply() {
    let mut chain = fresh_chain();
    chain.absorb_first_reply(Some("long analysis text".to_string())).unwrap();
    let r = chain.absorb_second_reply(Some("a long enough final narrative".to_string()));
    assert_eq!(r.unwrap(), "a long enough final narrative");
}
