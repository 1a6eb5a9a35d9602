//! The two-call chat-completion protocol.  Call one establishes an analysis
//! from budgeted content; call two sees the verbatim conversation so far and
//! asks for a compressed narrative.  The provider itself is driven by the
//! caller; this module holds the state machine, the verbatim threading of
//! the conversation, and the quality gate on the second reply.

use vstd::prelude::*;
use vstd::string::StrSliceExecFns;

verus! {

/// A second reply shorter than this many characters counts as a degenerate
/// generation.
pub const MIN_REPLY_CHARS: usize = 10;

/// Sampling temperature handed to the provider, in hundredths.
pub const TEMPERATURE_PERCENT: u8 = 70;

/// Which completion model class a request asks for.
#[derive(Clone, Copy, Debug, PartialEq, Eq, Structural)]
pub enum ChatModelKind {
    /// The ordinary context window.
    Standard,
    /// The enlarged context window, for long prompts.
    LargeContext,
}

/// Why a chain run failed.
#[derive(Clone, Copy, Debug, PartialEq, Eq, Structural)]
pub enum ChainFailure {
    /// The provider returned no reply (transport, auth or provider fault).
    ProviderError,
    /// The second reply was too short to be a meaningful summary.
    DegenerateOutput,
}

/// Where a chain run stands.
#[derive(Clone, Copy, Debug, PartialEq, Eq, Structural)]
pub enum ChainPhase {
    Pending,
    FirstCallDone,
    Complete,
    Failed,
}

/// The conversation after the first call: call two must see these three
/// texts verbatim, or the chain of thought it builds on is broken.
pub struct ConversationState {
    pub system_prompt: String,
    pub user_prompt_1: String,
    pub assistant_reply_1: String,
}

/// The system context of a request: a fresh system prompt for call one, the
/// threaded conversation for call two.
pub enum SystemContext {
    Fresh(String),
    Threaded(ConversationState),
}

/// One completion request for the provider client.
pub struct CompletionRequest {
    pub model: ChatModelKind,
    pub context: SystemContext,
    pub user_prompt: String,
    pub max_output_tokens: u16,
    pub temperature_percent: u8,
    /// True when prior conversation state is to be ignored (call one).
    pub restart: bool,
}

impl CompletionRequest {
    /// The restart flag agrees with the shape of the context.
    pub open spec fn well_formed(self) -> bool {
        self.restart <==> self.context is Fresh
    }
}

/// The protocol outcome given what the provider returned on each call;
/// `None` stands for a provider failure.
pub open spec fn chain_outcome(first: Option<Seq<char>>, second: Option<Seq<char>>) -> Result<
    Seq<char>,
    ChainFailure,
> {
    if first is None {
        Err(ChainFailure::ProviderError)
    } else if second is None {
        Err(ChainFailure::ProviderError)
    } else if second.unwrap().len() < MIN_REPLY_CHARS as nat {
        Err(ChainFailure::DegenerateOutput)
    } else {
        Ok(second.unwrap())
    }
}

/// A second reply shorter than the minimum always fails, whatever the
/// first call replied: the short text itself never becomes the narrative.
pub proof fn lemma_short_second_reply_fails(first: Seq<char>, second: Seq<char>)
    requires
        second.len() < MIN_REPLY_CHARS as nat,
    ensures
        chain_outcome(Some(first), Some(second)) == Err::<
            Seq<char>,
            ChainFailure,
        >(ChainFailure::DegenerateOutput),
{
}

/// The two-call chain for one narrative.
pub struct ChatChain {
    pub phase: ChainPhase,
    pub system_prompt: String,
    pub user_prompt_1: String,
    pub max_out_1: u16,
    pub user_prompt_2: String,
    pub max_out_2: u16,
    /// Correlates the two calls of one logical subject in logs.
    pub correlation_id: String,
    pub reply_1: Option<String>,
}

impl ChatChain {
    /// A chain ready to issue its first call.
    pub fn new(
        system_prompt: String,
        user_prompt_1: String,
        max_out_1: u16,
        user_prompt_2: String,
        max_out_2: u16,
        correlation_id: String,
    ) -> (r: ChatChain)
        ensures
            r.phase is Pending,
            r.system_prompt@ == system_prompt@,
            r.user_prompt_1@ == user_prompt_1@,
            r.max_out_1 == max_out_1,
            r.user_prompt_2@ == user_prompt_2@,
            r.max_out_2 == max_out_2,
            r.correlation_id@ == correlation_id@,
            r.reply_1 is None,
    {
        ChatChain {
            phase: ChainPhase::Pending,
            system_prompt,
            user_prompt_1,
            max_out_1,
            user_prompt_2,
            max_out_2,
            correlation_id,
            reply_1: None,
        }
    }

    /// The request of call one: a fresh context, restart set.
    pub fn first_request(&self) -> (r: CompletionRequest)
        requires
            self.phase is Pending,
        ensures
            r.well_formed(),
            r.restart == true,
            r.model is LargeContext,
            r.context matches SystemContext::Fresh(s) && s@ == self.system_prompt@,
            r.user_prompt@ == self.user_prompt_1@,
            r.max_output_tokens == self.max_out_1,
            r.temperature_percent == TEMPERATURE_PERCENT,
    {
        CompletionRequest {
            model: ChatModelKind::LargeContext,
            context: SystemContext::Fresh(self.system_prompt.clone()),
            user_prompt: self.user_prompt_1.clone(),
            max_output_tokens: self.max_out_1,
            temperature_percent: TEMPERATURE_PERCENT,
            restart: true,
        }
    }

    /// Absorbs the provider's reply to call one.  On success the chain moves
    /// on and hands back the request of call two, whose context threads the
    /// conversation verbatim; on provider failure the chain fails.
    pub fn absorb_first_reply(&mut self, outcome: Option<String>) -> (r: Result<
        CompletionRequest,
        ChainFailure,
    >)
        requires
            old(self).phase is Pending,
        ensures
            final(self).system_prompt@ == old(self).system_prompt@,
            final(self).user_prompt_1@ == old(self).user_prompt_1@,
            final(self).user_prompt_2@ == old(self).user_prompt_2@,
            final(self).correlation_id@ == old(self).correlation_id@,
            outcome is None ==> r == Err::<CompletionRequest, ChainFailure>(
                ChainFailure::ProviderError,
            ) && final(self).phase is Failed,
            outcome matches Some(reply) ==> {
                &&& final(self).phase is FirstCallDone
                &&& final(self).reply_1 matches Some(r1) && r1@ == reply@
                &&& r matches Ok(req)
                &&& req.well_formed()
                &&& req.restart == false
                &&& req.model is LargeContext
                &&& req.context matches SystemContext::Threaded(conv) && conv.system_prompt@ == old(
                    self,
                ).system_prompt@ && conv.user_prompt_1@ == old(self).user_prompt_1@
                    && conv.assistant_reply_1@ == reply@
                &&& req.user_prompt@ == old(self).user_prompt_2@
                &&& req.max_output_tokens == old(self).max_out_2
                &&& req.temperature_percent == TEMPERATURE_PERCENT
            },
    {
        match outcome {
            None => {
                self.phase = ChainPhase::Failed;
                Err(ChainFailure::ProviderError)
            },
            Some(reply) => {
                self.phase = ChainPhase::FirstCallDone;
                let conv = ConversationState {
                    system_prompt: self.system_prompt.clone(),
                    user_prompt_1: self.user_prompt_1.clone(),
                    assistant_reply_1: reply.clone(),
                };
                self.reply_1 = Some(reply);
                Ok(
                    CompletionRequest {
                        model: ChatModelKind::LargeContext,
                        context: SystemContext::Threaded(conv),
                        user_prompt: self.user_prompt_2.clone(),
                        max_output_tokens: self.max_out_2,
                        temperature_percent: TEMPERATURE_PERCENT,
                        restart: false,
                    },
                )
            },
        }
    }

    /// Absorbs the provider's reply to call two and applies the quality
    /// gate: a missing reply is a provider failure, a reply shorter than
    /// `MIN_REPLY_CHARS` characters is a degenerate generation, anything
    /// else completes the chain and is the narrative.
    pub fn absorb_second_reply(&mut self, outcome: Option<String>) -> (r: Result<
        String,
        ChainFailure,
    >)
        requires
            old(self).phase is FirstCallDone,
        ensures
            outcome is None ==> r == Err::<String, ChainFailure>(ChainFailure::ProviderError)
                && final(self).phase is Failed,
            outcome matches Some(reply) && reply@.len() < MIN_REPLY_CHARS as nat ==> r == Err::<
                String,
                ChainFailure,
            >(ChainFailure::DegenerateOutput) && final(self).phase is Failed,
            outcome matches Some(reply) ==> (reply@.len() >= MIN_REPLY_CHARS as nat ==> (r matches Ok(
                out,
            ) && out@ == reply@) && final(self).phase is Complete),
            ({
                let first = match old(self).reply_1 {
                    Some(r1) => Some(r1@),
                    None => None,
                };
                let second = match outcome {
                    Some(s) => Some(s@),
                    None => None,
                };
                old(self).reply_1 is Some ==> match chain_outcome(first, second) {
                    Ok(text) => r matches Ok(out) && out@ == text,
                    Err(f) => r matches Err(g) && g == f,
                }
            }),
    {
        match outcome {
            None => {
                self.phase = ChainPhase::Failed;
                Err(ChainFailure::ProviderError)
            },
            Some(reply) => {
                if reply.as_str().unicode_len() < MIN_REPLY_CHARS {
                    self.phase = ChainPhase::Failed;
                    Err(ChainFailure::DegenerateOutput)
                } else {
                    self.phase = ChainPhase::Complete;
                    Ok(reply)
                }
            },
        }
    }
}

} // verus!
