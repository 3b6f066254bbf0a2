//! The request and response shapes exchanged over the service boundary,
//! and the decisions the service endpoints make on them.  Transport and
//! routing live with the hosting application.

use vstd::prelude::*;
use vstd::string::StringExecFns;

use crate::license::LicenseVerification;

verus! {

/// Service health report.
#[derive(Clone, Debug)]
pub struct HealthResponse {
    pub status: &'static str,
    pub version: &'static str,
    pub ollama_connected: bool,
    pub stripe_configured: bool,
}

/// A chat request.
#[derive(Clone, Debug)]
pub struct ChatRequest {
    pub message: String,
    pub license_key: Option<String>,
    pub model: Option<String>,
    pub conversation_id: Option<String>,
}

/// A chat reply.
#[derive(Clone, Debug)]
pub struct ChatResponse {
    pub message: String,
    pub conversation_id: String,
    pub model: String,
}

/// An error reply: a human-readable text and a machine-readable code.
#[derive(Clone, Debug)]
pub struct ErrorResponse {
    pub error: String,
    pub code: String,
}

/// A checkout request, as received over the boundary.
#[derive(Clone, Debug)]
pub struct CheckoutRequest {
    pub plan: String,
    pub email: String,
    pub success_url: String,
    pub cancel_url: String,
}

/// A checkout reply.
#[derive(Clone, Debug)]
pub struct CheckoutResponse {
    pub checkout_url: String,
    pub session_id: String,
}

/// A license verification request.
#[derive(Clone, Debug)]
pub struct VerifyLicenseRequest {
    pub license_key: String,
}

/// A chat message as displayed by a client.
#[derive(Clone, Debug)]
pub struct ChatMessage {
    pub role: String,
    pub content: String,
}

/// Whether a chat request is turned away for its license: a failed
/// verification yields the rejection to send back (its message, or a
/// stock text when the verification carries none); a passing one yields
/// nothing.
pub fn chat_license_rejection(verification: &LicenseVerification) -> (r: Option<ErrorResponse>)
    ensures
        verification.valid ==> r is None,
        !verification.valid ==> (r matches Some(resp) && resp.code@ == "INVALID_LICENSE"@ && (
        match verification.message {
            Some(m) => resp.error@ == m@,
            None => resp.error@ == "Invalid license"@,
        })),
{
    if verification.valid {
        return None;
    }
    let error = match &verification.message {
        Some(m) => m.clone(),
        None => String::from_str("Invalid license"),
    };
    Some(ErrorResponse { error, code: String::from_str("INVALID_LICENSE") })
}

} // verus!
