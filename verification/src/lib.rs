//! Core agent logic: a provider-agnostic reasoning loop with an
//! extensible, schema-validated tool system and a budgeted conversation
//! model, plus the license and checkout rules of the service around it.

pub mod api;
pub mod builtins;
pub mod checkout;
pub mod errors;
pub mod json;
pub mod license;
pub mod message;
pub mod outside;
pub mod provider;
pub mod reasoning;
pub mod risk;
pub mod runtime;
pub mod sequences;
pub mod session;
pub mod strutil;
pub mod tool;
pub mod webhook;
pub mod wire;

pub use errors::AgentError;
pub use errors::PaymentError;
pub use message::Message;
pub use message::Role;
pub use provider::LlmProvider;
pub use reasoning::Agent;
pub use session::Session;
pub use tool::Tool;
pub use tool::ToolCall;
pub use tool::ToolRegistry;
pub use tool::ToolResult;
