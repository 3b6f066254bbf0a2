//! The provider abstraction: the capability contract any LLM backend
//! implements, and a multi-backend selection wrapper.

use vstd::prelude::*;
use vstd::string::StringExecFns;
use vstd::utf8::encode_utf8;

use crate::errors::AgentError;
use crate::message::Message;

verus! {

/// Default maximum number of generated tokens.
pub fn default_max_tokens() -> (r: u32)
    ensures
        r == 2048,
{
    2048
}

/// Default sampling temperature, in thousandths.
pub fn default_temperature_milli() -> (r: u32)
    ensures
        r == 700,
{
    700
}

/// Default top-p, in thousandths.
pub fn default_top_p_milli() -> (r: u32)
    ensures
        r == 900,
{
    900
}

/// Configuration for one generation call.
///
/// Sampling knobs are carried in thousandths (a temperature of 0.7 is
/// `700`); a backend adapter converts to its own scale at the boundary.
#[derive(Clone, Debug)]
pub struct GenerationOptions {
    /// Model identifier (e.g. "llama3.2")
    pub model: String,
    /// Temperature for sampling, in thousandths (0 = deterministic)
    pub temperature_milli: u32,
    /// Maximum tokens to generate
    pub max_tokens: u32,
    /// Top-p nucleus sampling, in thousandths
    pub top_p_milli: u32,
    /// Stop sequences
    pub stop_sequences: Vec<String>,
    /// System prompt override (if the backend supports it separately)
    pub system_prompt: Option<String>,
}

impl Default for GenerationOptions {
    /// The stock configuration.
    fn default() -> (r: Self)
        ensures
            r.model@ == "llama3.2"@,
            r.temperature_milli == 700,
            r.max_tokens == 2048,
            r.top_p_milli == 900,
            r.stop_sequences@.len() == 0,
            r.system_prompt is None,
    {
        GenerationOptions {
            model: String::from_str("llama3.2"),
            temperature_milli: default_temperature_milli(),
            max_tokens: default_max_tokens(),
            top_p_milli: default_top_p_milli(),
            stop_sequences: Vec::new(),
            system_prompt: None,
        }
    }
}

/// Token usage statistics.
#[derive(Clone, Debug, PartialEq, Eq, Structural)]
pub struct TokenUsage {
    pub prompt_tokens: u32,
    pub completion_tokens: u32,
    pub total_tokens: u32,
}

/// Reason a completion finished.
#[derive(Clone, Debug, PartialEq, Eq, Structural)]
pub enum FinishReason {
    Stop,
    Length,
    ToolUse,
    ContentFilter,
    Error,
}

/// Response from one completion call.
#[derive(Clone, Debug)]
pub struct Completion {
    /// The generated text
    pub content: String,
    /// Model that generated this response
    pub model: String,
    /// Token usage statistics (if available)
    pub usage: Option<TokenUsage>,
    /// Whether the response was truncated
    pub truncated: bool,
    /// Finish reason
    pub finish_reason: Option<FinishReason>,
}

/// One chunk of a streaming completion; usage is populated only on the
/// terminal chunk.
#[derive(Clone, Debug)]
pub struct StreamChunk {
    /// The text delta
    pub delta: String,
    /// Whether this is the final chunk
    pub done: bool,
    /// Token usage (typically only on the final chunk)
    pub usage: Option<TokenUsage>,
}

/// Information about one model.
#[derive(Clone, Debug)]
pub struct ModelInfo {
    pub id: String,
    pub name: String,
    pub context_length: Option<u32>,
    pub supports_vision: bool,
}

/// Provider metadata.
#[derive(Clone, Debug)]
pub struct ProviderInfo {
    /// Provider name (e.g. "Ollama")
    pub name: String,
    /// Provider version
    pub version: Option<String>,
    /// Available models
    pub models: Vec<ModelInfo>,
    /// Whether streaming is supported
    pub supports_streaming: bool,
    /// Whether tool/function calling is supported
    pub supports_tools: bool,
}

/// The length-based token estimate: byte length divided by four,
/// saturated at `u32::MAX`.
pub open spec fn spec_text_estimate(s: Seq<char>) -> int {
    let t = (encode_utf8(s).len() as usize) as int / 4;
    if t > u32::MAX {
        u32::MAX as int
    } else {
        t
    }
}

/// The capability contract any LLM backend implements.
///
/// The reasoning loop works exclusively through this interface; a backend
/// adapter performs the actual network I/O and resolves each call to a
/// value or an error.  A failing backend yields `ProviderUnavailable`
/// (retryable), a backend-side error `Provider`, and throttling
/// `RateLimited`; none of these are retried here.
pub trait LlmProvider {
    /// Provider information and capabilities.
    fn info(&self) -> (r: Result<ProviderInfo, AgentError>);

    /// Availability probe.  A backend failure resolves to `Ok(false)` or
    /// an error value; it never aborts the caller.
    fn health_check(&self) -> (r: Result<bool, AgentError>);

    /// Generate one completion from the messages.
    fn complete(&self, messages: &Vec<Message>, options: &GenerationOptions) -> (r: Result<
        Completion,
        AgentError,
    >);

    /// Enumerate available models.
    fn list_models(&self) -> (r: Result<Vec<ModelInfo>, AgentError>);

    /// Estimate the token count of a text with this provider's own
    /// heuristic; the default is the length-based estimate.
    fn estimate_tokens(&self, text: &str) -> (r: u32)
        ensures
            r as int == spec_text_estimate(text@),
    {
        let q = text.len() / 4;
        if q > (u32::MAX) as usize {
            u32::MAX
        } else {
            q as u32
        }
    }
}

/// Provider selection strategy for a chain of backends.
#[derive(Clone, Debug, PartialEq, Eq, Structural)]
pub enum ProviderStrategy {
    /// Always the first provider
    Single,
    /// Read the cursor without advancing; `advance` moves on after an
    /// observed failure
    Failover,
    /// Every selection atomically advances the cursor
    RoundRobin,
    /// Route by model name; the cursor is advanced by the caller
    ModelRouted,
}

/// A chain of providers with one shared selection cursor.
///
/// The view of a chain is its provider sequence.
pub struct ProviderChain<P: LlmProvider> {
    providers: Vec<P>,
    strategy: ProviderStrategy,
    current_index: usize,
}

impl<P: LlmProvider> View for ProviderChain<P> {
    type V = Seq<P>;

    closed spec fn view(&self) -> Seq<P> {
        self.providers@
    }
}

impl<P: LlmProvider> ProviderChain<P> {
    /// The configured strategy.
    pub closed spec fn spec_strategy(&self) -> ProviderStrategy {
        self.strategy
    }

    /// The shared selection cursor.
    pub closed spec fn spec_cursor(&self) -> usize {
        self.current_index
    }

    /// The cursor after one atomic increment (wrapping).
    pub open spec fn spec_next_cursor(c: usize) -> usize {
        if c == usize::MAX {
            0
        } else {
            (c + 1) as usize
        }
    }

    /// Build a chain over the given providers.
    pub fn new(providers: Vec<P>, strategy: ProviderStrategy) -> (r: Self)
        ensures
            r@ == providers@,
            r.spec_strategy() == strategy,
            r.spec_cursor() == 0,
    {
        ProviderChain { providers, strategy, current_index: 0 }
    }

    /// Select a provider according to the strategy.
    ///
    /// An empty chain yields no provider.  `Single` always selects the
    /// first provider; `RoundRobin` selects the cursor position and
    /// advances the cursor; `Failover` and `ModelRouted` select the cursor
    /// position without advancing.
    pub fn next_provider(&mut self) -> (r: Option<&P>)
        ensures
            final(self)@ == old(self)@,
            final(self).spec_strategy() == old(self).spec_strategy(),
            old(self)@.len() == 0 ==> r is None && final(self).spec_cursor() == old(self).spec_cursor(),
            old(self)@.len() > 0 ==> match old(self).spec_strategy() {
                ProviderStrategy::Single => (r matches Some(p) && *p == old(self)@[0]) && final(self).spec_cursor() == old(self).spec_cursor(),
                ProviderStrategy::RoundRobin => (r matches Some(p) && *p == old(self)@[(old(self).spec_cursor() as int) % (old(self)@.len() as int)]) && final(self).spec_cursor()
                    == Self::spec_next_cursor(old(self).spec_cursor()),
                _ => (r matches Some(p) && *p == old(self)@[(old(self).spec_cursor() as int) % (
                old(self)@.len() as int)]) && final(self).spec_cursor() == old(self).spec_cursor(),
            },
    {
        if self.providers.len() == 0 {
            return None;
        }
        match self.strategy {
            ProviderStrategy::Single => Some(&self.providers[0]),
            ProviderStrategy::RoundRobin => {
                let idx = self.current_index % self.providers.len();
                self.current_index = if self.current_index == usize::MAX {
                    0
                } else {
                    self.current_index + 1
                };
                Some(&self.providers[idx])
            },
            _ => {
                let idx = self.current_index % self.providers.len();
                Some(&self.providers[idx])
            },
        }
    }

    /// Advance the cursor so the next selection moves to the following
    /// provider (used by a caller after an observed failure).
    pub fn advance(&mut self)
        ensures
            final(self)@ == old(self)@,
            final(self).spec_strategy() == old(self).spec_strategy(),
            final(self).spec_cursor() == Self::spec_next_cursor(old(self).spec_cursor()),
    {
        self.current_index = if self.current_index == usize::MAX {
            0
        } else {
            self.current_index + 1
        };
    }

    /// Number of providers in the chain.
    pub fn len(&self) -> (r: usize)
        ensures
            r == self@.len(),
    {
        self.providers.len()
    }
}

} // verus!
