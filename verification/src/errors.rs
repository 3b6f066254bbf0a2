//! Error taxonomy for the agent engine and for the payment/licensing boundary.

use vstd::prelude::*;
use vstd::string::StringExecFns;

use crate::strutil::spec_u64_string;
use crate::strutil::u64_to_string;

verus! {

/// Errors raised by the agent engine.
///
/// Retryable kinds (`ProviderUnavailable`, `RateLimited`, `Io`) are flagged by
/// [`AgentError::is_retryable`] so a caller or provider chain can decide to
/// retry or fail over; the engine itself performs no retries.
#[derive(Clone, Debug, PartialEq, Eq)]
pub enum AgentError {
    /// LLM provider error (backend-side failure; not retryable by default)
    Provider(String),
    /// Provider unreachable or misconfigured (retryable)
    ProviderUnavailable(String),
    /// Tool not found in the registry; carries the requested name
    ToolNotFound(String),
    /// Tool argument validation failed
    ToolValidation(String),
    /// Tool execution failed
    ToolExecution(String),
    /// Maximum iterations reached in the reasoning loop; carries the bound
    MaxIterations(usize),
    /// Context length exceeded
    ContextOverflow { used: u32, max: u32 },
    /// Parse error (e.g. tool call parsing)
    Parse(String),
    /// Session error
    Session(String),
    /// Configuration error
    Config(String),
    /// Rate limited (retryable)
    RateLimited(String),
    /// Authentication failed
    Auth(String),
    /// I/O error, carried as text (retryable)
    Io(String),
    /// Serialization error, carried as text
    Json(String),
    /// Other/unknown error
    Other(String),
}

impl AgentError {
    /// Whether a caller may reasonably retry the failed operation.
    pub fn is_retryable(&self) -> (r: bool)
        ensures
            r == (self is ProviderUnavailable || self is RateLimited || self is Io),
    {
        match self {
            AgentError::ProviderUnavailable(_) => true,
            AgentError::RateLimited(_) => true,
            AgentError::Io(_) => true,
            _ => false,
        }
    }

    /// The text that [`AgentError::user_message`] returns for each error kind.
    pub open spec fn spec_user_message(&self) -> Seq<char> {
        match self {
            AgentError::Provider(msg) => "The AI service encountered an error: "@ + msg@,
            AgentError::ProviderUnavailable(_) => {
                "The AI service is currently unavailable. Please try again."@
            },
            AgentError::ToolNotFound(name) => "The tool '"@ + name@ + "' is not available."@,
            AgentError::ToolValidation(msg) => "Invalid tool input: "@ + msg@,
            AgentError::ToolExecution(msg) => "Tool error: "@ + msg@,
            AgentError::MaxIterations(_) => {
                "The request took too long to process. Please try a simpler query."@
            },
            AgentError::ContextOverflow { .. } => {
                "The conversation is too long. Please start a new session."@
            },
            AgentError::RateLimited(_) => "You've made too many requests. Please wait a moment."@,
            AgentError::Auth(_) => "Authentication failed. Please check your credentials."@,
            _ => "An unexpected error occurred."@,
        }
    }

    /// The text that [`AgentError::message`] returns for each error kind.
    pub open spec fn spec_message(&self) -> Seq<char> {
        match self {
            AgentError::Provider(msg) => "Provider error: "@ + msg@,
            AgentError::ProviderUnavailable(msg) => "Provider unavailable: "@ + msg@,
            AgentError::ToolNotFound(name) => "Tool not found: "@ + name@,
            AgentError::ToolValidation(msg) => "Tool validation error: "@ + msg@,
            AgentError::ToolExecution(msg) => "Tool execution error: "@ + msg@,
            AgentError::MaxIterations(n) => "Maximum iterations ("@ + spec_u64_string(*n as int)
                + ") reached"@,
            AgentError::ContextOverflow { used, max } => "Context length exceeded: "@
                + spec_u64_string(*used as int) + " tokens (max: "@ + spec_u64_string(*max as int)
                + ")"@,
            AgentError::Parse(msg) => "Parse error: "@ + msg@,
            AgentError::Session(msg) => "Session error: "@ + msg@,
            AgentError::Config(msg) => "Configuration error: "@ + msg@,
            AgentError::RateLimited(msg) => "Rate limited: "@ + msg@,
            AgentError::Auth(msg) => "Authentication failed: "@ + msg@,
            AgentError::Io(msg) => "IO error: "@ + msg@,
            AgentError::Json(msg) => "JSON error: "@ + msg@,
            AgentError::Other(msg) => msg@,
        }
    }

    /// The error rendered as text: a kind prefix, then the detail.
    pub fn message(&self) -> (r: String)
        ensures
            r@ == self.spec_message(),
    {
        match self {
            AgentError::Provider(msg) => {
                let mut r = String::from_str("Provider error: ");
                r.append(msg.as_str());
                r
            },
            AgentError::ProviderUnavailable(msg) => {
                let mut r = String::from_str("Provider unavailable: ");
                r.append(msg.as_str());
                r
            },
            AgentError::ToolNotFound(name) => {
                let mut r = String::from_str("Tool not found: ");
                r.append(name.as_str());
                r
            },
            AgentError::ToolValidation(msg) => {
                let mut r = String::from_str("Tool validation error: ");
                r.append(msg.as_str());
                r
            },
            AgentError::ToolExecution(msg) => {
                let mut r = String::from_str("Tool execution error: ");
                r.append(msg.as_str());
                r
            },
            AgentError::MaxIterations(n) => {
                let mut r = String::from_str("Maximum iterations (");
                let digits = u64_to_string(*n as u64);
                r.append(digits.as_str());
                r.append(") reached");
                r
            },
            AgentError::ContextOverflow { used, max } => {
                let mut r = String::from_str("Context length exceeded: ");
                let used_digits = u64_to_string(*used as u64);
                r.append(used_digits.as_str());
                r.append(" tokens (max: ");
                let max_digits = u64_to_string(*max as u64);
                r.append(max_digits.as_str());
                r.append(")");
                r
            },
            AgentError::Parse(msg) => {
                let mut r = String::from_str("Parse error: ");
                r.append(msg.as_str());
                r
            },
            AgentError::Session(msg) => {
                let mut r = String::from_str("Session error: ");
                r.append(msg.as_str());
                r
            },
            AgentError::Config(msg) => {
                let mut r = String::from_str("Configuration error: ");
                r.append(msg.as_str());
                r
            },
            AgentError::RateLimited(msg) => {
                let mut r = String::from_str("Rate limited: ");
                r.append(msg.as_str());
                r
            },
            AgentError::Auth(msg) => {
                let mut r = String::from_str("Authentication failed: ");
                r.append(msg.as_str());
                r
            },
            AgentError::Io(msg) => {
                let mut r = String::from_str("IO error: ");
                r.append(msg.as_str());
                r
            },
            AgentError::Json(msg) => {
                let mut r = String::from_str("JSON error: ");
                r.append(msg.as_str());
                r
            },
            AgentError::Other(msg) => msg.clone(),
        }
    }

    /// Convert to a user-friendly message.
    pub fn user_message(&self) -> (r: String)
        ensures
            r@ == self.spec_user_message(),
    {
        match self {
            AgentError::Provider(msg) => {
                let mut r = String::from_str("The AI service encountered an error: ");
                r.append(msg.as_str());
                r
            },
            AgentError::ProviderUnavailable(_) => {
                String::from_str("The AI service is currently unavailable. Please try again.")
            },
            AgentError::ToolNotFound(name) => {
                let mut r = String::from_str("The tool '");
                r.append(name.as_str());
                r.append("' is not available.");
                r
            },
            AgentError::ToolValidation(msg) => {
                let mut r = String::from_str("Invalid tool input: ");
                r.append(msg.as_str());
                r
            },
            AgentError::ToolExecution(msg) => {
                let mut r = String::from_str("Tool error: ");
                r.append(msg.as_str());
                r
            },
            AgentError::MaxIterations(_) => {
                String::from_str("The request took too long to process. Please try a simpler query.")
            },
            AgentError::ContextOverflow { .. } => {
                String::from_str("The conversation is too long. Please start a new session.")
            },
            AgentError::RateLimited(_) => {
                String::from_str("You've made too many requests. Please wait a moment.")
            },
            AgentError::Auth(_) => {
                String::from_str("Authentication failed. Please check your credentials.")
            },
            _ => String::from_str("An unexpected error occurred."),
        }
    }
}

/// Errors raised at the payment and licensing boundary.
#[derive(Clone, Debug, PartialEq, Eq)]
pub enum PaymentError {
    /// Payment processor API error (retryable)
    Stripe(String),
    /// Webhook signature verification failed
    WebhookSignature(String),
    /// Webhook payload parsing failed
    WebhookParse(String),
    /// License not found
    LicenseNotFound(String),
    /// License expired or invalid
    LicenseInvalid(String),
    /// Rate limit exceeded
    RateLimited,
    /// Configuration error
    Config(String),
    /// Storage error (retryable)
    Storage(String),
}

impl PaymentError {
    /// Whether a caller may reasonably retry the failed operation.
    pub fn is_retryable(&self) -> (r: bool)
        ensures
            r == (self is Stripe || self is Storage),
    {
        match self {
            PaymentError::Stripe(_) => true,
            PaymentError::Storage(_) => true,
            _ => false,
        }
    }

    /// The text that [`PaymentError::user_message`] returns for each error kind.
    pub open spec fn spec_user_message(&self) -> Seq<char> {
        match self {
            PaymentError::Stripe(_) => "Payment processing failed. Please try again."@,
            PaymentError::LicenseNotFound(_) => "License key not found."@,
            PaymentError::LicenseInvalid(_) => "Your license is no longer valid."@,
            PaymentError::RateLimited => "You've exceeded your usage limit."@,
            PaymentError::Config(_) => "Service configuration error."@,
            _ => "An error occurred processing your request."@,
        }
    }

    /// Get a user-friendly message.
    pub fn user_message(&self) -> (r: &'static str)
        ensures
            r@ == self.spec_user_message(),
    {
        match self {
            PaymentError::Stripe(_) => "Payment processing failed. Please try again.",
            PaymentError::LicenseNotFound(_) => "License key not found.",
            PaymentError::LicenseInvalid(_) => "Your license is no longer valid.",
            PaymentError::RateLimited => "You've exceeded your usage limit.",
            PaymentError::Config(_) => "Service configuration error.",
            _ => "An error occurred processing your request.",
        }
    }
}

} // verus!
