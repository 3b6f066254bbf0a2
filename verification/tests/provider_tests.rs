use agent_core::errors::AgentError;
use agent_core::message::Message;
use agent_core::provider::Completion;
use agent_core::provider::FinishReason;
use agent_core::provider::GenerationOptions;
use agent_core::provider::LlmProvider;
use agent_core::provider::ModelInfo;
use agent_core::provider::ProviderChain;
use agent_core::provider::ProviderInfo;
use agent_core::provider::ProviderStrategy;
use agent_core::runtime::OllamaConfig;

/// A scripted backend that always replies with the same text.
struct FixedProvider {
    id: u32,
}

impl LlmProvider for FixedProvider {
    fn info(&self) -> Result<ProviderInfo, AgentError> {
        Ok(ProviderInfo {
            name: format!("fixed-{}", self.id),
            version: None,
            models: Vec::new(),
            supports_streaming: false,
            supports_tools: false,
        })
    }

    fn health_check(&self) -> Result<bool, AgentError> {
        Ok(true)
    }

    fn complete(
        &self,
        _messages: &Vec<Message>,
        options: &GenerationOptions,
    ) -> Result<Completion, AgentError> {
        Ok(Completion {
            content: format!("{}", self.id),
            model: options.model.clone(),
            usage: None,
            truncated: false,
            finish_reason: Some(FinishReason::Stop),
        })
    }

    fn list_models(&self) -> Result<Vec<ModelInfo>, AgentError> {
        Ok(Vec::new())
    }
}

fn reply_of(p: &FixedProvider) -> String {
    p.complete(&Vec::new(), &GenerationOptions::default())
        .unwrap()
        .content
}

#[test]
fn test_generation_options_defaults() {
    let opts = GenerationOptions::default();
    assert_eq!(opts.temperature_milli, 700);
    assert_eq!(opts.max_tokens, 2048);
    assert_eq!(opts.model, "llama3.2");
}

#[test]
fn test_config_defaults() {
    let config = OllamaConfig::default();
    assert_eq!(config.host, "http://localhost");
    assert_eq!(config.port, 11434);
}

#[test]
fn test_round_robin_visits_in_registration_order_then_wraps() {
    let providers = vec![
        FixedProvider { id: 0 },
        FixedProvider { id: 1 },
        FixedProvider { id: 2 },
    ];
    let mut chain = ProviderChain::new(providers, ProviderStrategy::RoundRobin);

    assert_eq!(reply_of(chain.next_provider().unwrap()), "0");
    assert_eq!(reply_of(chain.next_provider().unwrap()), "1");
    assert_eq!(reply_of(chain.next_provider().unwrap()), "2");
    assert_eq!(reply_of(chain.next_provider().unwrap()), "0");
}

#[test]
fn test_single_strategy_always_first() {
    let providers = vec![FixedProvider { id: 4 }, FixedProvider { id: 5 }];
    let mut chain = ProviderChain::new(providers, ProviderStrategy::Single);
    assert_eq!(reply_of(chain.next_provider().unwrap()), "4");
    assert_eq!(reply_of(chain.next_provider().unwrap()), "4");
}

#[test]
fn test_failover_advances_only_on_request() {
    let providers = vec![FixedProvider { id: 7 }, FixedProvider { id: 8 }];
    let mut chain = ProviderChain::new(providers, ProviderStrategy::Failover);
    assert_eq!(reply_of(chain.next_provider().unwrap()), "7");
    assert_eq!(reply_of(chain.next_provider().unwrap()), "7");
    chain.advance();
    assert_eq!(reply_of(chain.next_provider().unwrap()), "8");
    chain.advance();
    assert_eq!(reply_of(chain.next_provider().unwrap()), "7");
}

#[test]
fn test_empty_chain_yields_no_provider() {
    let providers: Vec<FixedProvider> = Vec::new();
    let mut chain = ProviderChain::new(providers, ProviderStrategy::RoundRobin);
    assert!(chain.next_provider().is_none());
}

#[test]
fn test_default_token_estimate() {
    let p = FixedProvider { id: 0 };
    assert_eq!(p.estimate_tokens("12345678"), 2);
    assert_eq!(p.estimate_tokens(""), 0);
}
