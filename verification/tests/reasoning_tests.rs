use std::cell::RefCell;

use agent_core::builtins::DateTimeTool;
use agent_core::errors::AgentError;
use agent_core::message::Conversation;
use agent_core::message::Message;
use agent_core::message::Role;
use agent_core::provider::Completion;
use agent_core::provider::FinishReason;
use agent_core::provider::GenerationOptions;
use agent_core::provider::LlmProvider;
use agent_core::provider::ModelInfo;
use agent_core::provider::ProviderInfo;
use agent_core::reasoning::Agent;
use agent_core::reasoning::AgentBuilder;
use agent_core::reasoning::AgentConfig;
use agent_core::tool::ToolRegistry;
use agent_core::wire::detect_tool_call;

/// A backend that replies with a scripted sequence of texts, then repeats
/// the last one.
struct ScriptedProvider {
    replies: RefCell<Vec<String>>,
}

impl ScriptedProvider {
    fn new(replies: &[&str]) -> Self {
        let mut v: Vec<String> = replies.iter().map(|s| s.to_string()).collect();
        v.reverse();
        ScriptedProvider { replies: RefCell::new(v) }
    }
}

impl LlmProvider for ScriptedProvider {
    fn info(&self) -> Result<ProviderInfo, AgentError> {
        Ok(ProviderInfo {
            name: "scripted".to_string(),
            version: None,
            models: Vec::new(),
            supports_streaming: false,
            supports_tools: false,
        })
    }

    fn health_check(&self) -> Result<bool, AgentError> {
        Ok(true)
    }

    fn complete(
        &self,
        _messages: &Vec<Message>,
        options: &GenerationOptions,
    ) -> Result<Completion, AgentError> {
        let mut replies = self.replies.borrow_mut();
        let content = if replies.len() > 1 {
            replies.pop().unwrap()
        } else {
            replies.last().cloned().unwrap_or_default()
        };
        Ok(Completion {
            content,
            model: options.model.clone(),
            usage: None,
            truncated: false,
            finish_reason: Some(FinishReason::Stop),
        })
    }

    fn list_models(&self) -> Result<Vec<ModelInfo>, AgentError> {
        Ok(Vec::new())
    }
}

const FENCED_CALL: &str = "Checking.\n```tool\n{\"tool\": \"datetime\", \"arguments\": {}}\n```";

fn agent_with(
    provider: ScriptedProvider,
    max_iterations: usize,
) -> Agent<ScriptedProvider, DateTimeTool> {
    let mut tools: ToolRegistry<DateTimeTool> = ToolRegistry::new();
    tools.register(DateTimeTool);
    let mut config = AgentConfig::default();
    config.max_iterations = max_iterations;
    Agent::new(provider, tools, config)
}

fn roles(conv: &Conversation) -> Vec<Role> {
    conv.messages().iter().map(|m| m.role.clone()).collect()
}

#[test]
fn test_parse_tool_call() {
    let content = "Let me check that for you.\n```tool\n{\"tool\": \"calculate\", \"arguments\": {\"expression\": \"2 + 2\"}}\n```";
    assert!(content.contains("```tool"));
}

#[test]
fn test_run_without_tool_call_returns_after_one_iteration() {
    let agent = agent_with(ScriptedProvider::new(&["Just an answer."]), 10);
    let mut conv = Conversation::new();
    conv.push(Message::user("hi"));

    let answer = agent.run(&mut conv).unwrap();
    assert_eq!(answer, "Just an answer.");
    assert_eq!(
        roles(&conv),
        vec![Role::System, Role::User, Role::Assistant]
    );
}

#[test]
fn test_one_tool_iteration_appends_assistant_and_tool_pair() {
    let agent = agent_with(ScriptedProvider::new(&[FENCED_CALL, "All done."]), 10);
    let mut conv = Conversation::new();
    conv.push(Message::user("what time is it?"));

    let answer = agent.run(&mut conv).unwrap();
    assert_eq!(answer, "All done.");
    assert_eq!(
        roles(&conv),
        vec![
            Role::System,
            Role::User,
            Role::Assistant,
            Role::Tool,
            Role::Assistant
        ]
    );
    let tool_msg = &conv.messages()[3];
    assert!(tool_msg.content.starts_with("[Tool 'datetime' returned]\n"));
}

#[test]
fn test_always_tool_call_fails_with_max_iterations() {
    let n = 3;
    let agent = agent_with(ScriptedProvider::new(&[FENCED_CALL]), n);
    let mut conv = Conversation::new();
    conv.push(Message::user("loop forever"));

    let err = agent.run(&mut conv).unwrap_err();
    assert_eq!(err, AgentError::MaxIterations(n));

    let msgs = conv.messages();
    let assistants = msgs.iter().filter(|m| m.role == Role::Assistant).count();
    let tools = msgs.iter().filter(|m| m.role == Role::Tool).count();
    assert_eq!(assistants, n);
    assert_eq!(tools, n);
    assert_eq!(msgs[0].role, Role::System);
    assert_eq!(msgs.len(), 2 + 2 * n);
}

#[test]
fn test_provider_error_propagates_unmodified() {
    struct FailingProvider;
    impl LlmProvider for FailingProvider {
        fn info(&self) -> Result<ProviderInfo, AgentError> {
            Err(AgentError::ProviderUnavailable("down".to_string()))
        }
        fn health_check(&self) -> Result<bool, AgentError> {
            Ok(false)
        }
        fn complete(
            &self,
            _messages: &Vec<Message>,
            _options: &GenerationOptions,
        ) -> Result<Completion, AgentError> {
            Err(AgentError::ProviderUnavailable("down".to_string()))
        }
        fn list_models(&self) -> Result<Vec<ModelInfo>, AgentError> {
            Ok(Vec::new())
        }
    }

    let tools: ToolRegistry<DateTimeTool> = ToolRegistry::new();
    let agent = Agent::new(FailingProvider, tools, AgentConfig::default());
    let mut conv = Conversation::new();
    conv.push(Message::user("hi"));
    let err = agent.run(&mut conv).unwrap_err();
    assert_eq!(err, AgentError::ProviderUnavailable("down".to_string()));
    assert!(err.is_retryable());
}

#[test]
fn test_run_primes_system_prompt_once() {
    let agent = agent_with(ScriptedProvider::new(&["ok"]), 10);
    let mut conv = Conversation::new();
    conv.push(Message::user("hi"));
    agent.run(&mut conv).unwrap();
    assert_eq!(conv.messages()[0].role, Role::System);
    let sys = conv.messages()[0].content.clone();
    assert!(sys.contains("## Available Tools"));
    assert!(sys.contains("### datetime"));

    // A second run on the same conversation does not prepend another one.
    let systems = conv
        .messages()
        .iter()
        .filter(|m| m.role == Role::System)
        .count();
    assert_eq!(systems, 1);
}

#[test]
fn test_fenced_block_detected_anywhere_in_prose() {
    let content = "Some thoughts first.\n```tool\n{\"tool\":\"datetime\",\"arguments\":{}}\n```\nAnd a closing remark.";
    let call = detect_tool_call(content).expect("detected");
    assert_eq!(call.name, "datetime");
    assert!(call.arguments.is_empty());
    // A fresh id is generated for a fenced call without one.
    assert_eq!(call.id.expect("id").len(), 36);
}

#[test]
fn test_inline_fallback_detection() {
    let content = "I will call {\"tool\": \"datetime\", \"arguments\": {\"format\": \"iso\"}} now";
    let call = detect_tool_call(content).expect("detected");
    assert_eq!(call.name, "datetime");
    assert_eq!(call.arguments.len(), 1);
    assert_eq!(call.arguments[0].0, "format");
    // The fallback stage does not inject an id.
    assert!(call.id.is_none());
}

#[test]
fn test_malformed_tool_call_is_silently_ignored() {
    assert!(detect_tool_call("no call here").is_none());
    assert!(detect_tool_call("```tool\nnot json\n```").is_none());
    assert!(detect_tool_call("{\"tool\": \"x\"} but no arguments key").is_none());
    assert!(detect_tool_call("\"tool\" mentioned, no braces").is_none());
}

#[test]
fn test_explicit_id_is_kept() {
    let content = "```tool\n{\"tool\": \"datetime\", \"arguments\": {}, \"id\": \"call-1\"}\n```";
    let call = detect_tool_call(content).expect("detected");
    assert_eq!(call.id.as_deref(), Some("call-1"));
}

#[test]
fn test_builder_requires_provider() {
    let builder: AgentBuilder<ScriptedProvider, DateTimeTool> = AgentBuilder::new();
    let err = match builder.build() {
        Err(e) => e,
        Ok(_) => panic!("expected a configuration error"),
    };
    assert_eq!(err, AgentError::Config("Provider is required".to_string()));
}

#[test]
fn test_builder_composes_an_agent() {
    let agent = AgentBuilder::new()
        .provider(ScriptedProvider::new(&["fine"]))
        .tool(DateTimeTool)
        .system_prompt("Be terse.")
        .model("llama3.2")
        .max_iterations(4)
        .build()
        .unwrap();
    assert_eq!(agent.config().max_iterations, 4);
    assert_eq!(agent.config().system_prompt, "Be terse.");
    assert_eq!(agent.tools().len(), 1);

    let answer = agent.ask("hello").unwrap();
    assert_eq!(answer, "fine");
}
