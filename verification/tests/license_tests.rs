use agent_core::api::chat_license_rejection;
use agent_core::checkout::BillingInterval;
use agent_core::errors::AgentError;
use agent_core::errors::PaymentError;
use agent_core::license::License;
use agent_core::license::LicenseKey;
use agent_core::license::LicenseVerification;
use agent_core::license::Plan;
use agent_core::license::verification_for;
use agent_core::license::verify_and_use_license;
use agent_core::risk::tier_description;
use agent_core::session::Session;
use agent_core::session::SessionId;
use agent_core::webhook::apply_subscription_update;
use agent_core::webhook::resolve_checkout_plan;

#[test]
fn test_plan_pricing() {
    let pricing = Plan::Pro.pricing();
    assert_eq!(pricing.cents, 2900);
    assert_eq!(pricing.interval, BillingInterval::Monthly);
}

#[test]
fn test_license_key_generation() {
    let key = LicenseKey::generate();
    assert_eq!(key.as_str().len(), 19); // XXXX-XXXX-XXXX-XXXX
    assert_eq!(key.as_str().matches('-').count(), 3);
}

#[test]
fn test_license_validity() {
    let license = License::new("sub_123".into(), "test@example.com".into(), Plan::Pro);
    assert!(license.is_valid());
}

#[test]
fn test_rate_limiting() {
    let mut license = License::new("sub_123".into(), "test@example.com".into(), Plan::Free);

    // Should allow up to 50 requests
    for _ in 0..50 {
        assert!(license.check_and_increment_usage());
    }

    // 51st should fail
    assert!(!license.check_and_increment_usage());
}

#[test]
fn test_license_key_uppercases() {
    let key = LicenseKey::from_string("abcd-ef01-2345-6789");
    assert_eq!(key.as_str(), "ABCD-EF01-2345-6789");
}

#[test]
fn test_plan_parsing_and_tags() {
    assert_eq!(Plan::from_str("pro"), Plan::Pro);
    assert_eq!(Plan::from_str("PRO"), Plan::Pro);
    assert_eq!(Plan::from_str("Team"), Plan::Team);
    assert_eq!(Plan::from_str("anything"), Plan::Free);
    assert_eq!(Plan::Pro.as_str(), "pro");
    assert_eq!(Plan::Free.rate_limit(), 50);
    assert_eq!(Plan::Pro.rate_limit(), u32::MAX);
    assert_eq!(Plan::Team.seats(), 5);
}

#[test]
fn test_verify_and_use_counts_a_use() {
    let mut license = License::new("sub_9".into(), "a@b.c".into(), Plan::Free);
    let v = verify_and_use_license(&mut license, 0, 100);
    assert!(v.valid);
    assert_eq!(v.plan, Some(Plan::Free));
    assert_eq!(v.remaining_requests, Some(49));
    assert_eq!(license.usage_today, 1);

    license.deactivate();
    let v2 = verify_and_use_license(&mut license, 0, 100);
    assert!(!v2.valid);
    assert_eq!(v2.message.as_deref(), Some("License is not active"));
}

#[test]
fn test_verify_and_use_rate_limit_exceeded() {
    let mut license = License::new("sub_9".into(), "a@b.c".into(), Plan::Free);
    license.usage_today = 50;
    license.usage_reset_date = Some(100);
    let v = verify_and_use_license(&mut license, 0, 100);
    assert!(!v.valid);
    assert_eq!(v.message.as_deref(), Some("Rate limit exceeded"));

    // A new day resets the counter.
    let v2 = verify_and_use_license(&mut license, 0, 101);
    assert!(v2.valid);
}

#[test]
fn test_verification_for_lookup() {
    let license = License::new("sub_1".into(), "a@b.c".into(), Plan::Team);
    let v = verification_for(Some(&license), 0);
    assert!(v.valid);
    assert_eq!(v.plan, Some(Plan::Team));

    let missing = verification_for(None, 0);
    assert!(!missing.valid);
    assert_eq!(missing.message.as_deref(), Some("License not found or invalid"));
}

#[test]
fn test_expired_license_is_invalid() {
    let mut license = License::new("sub_2".into(), "a@b.c".into(), Plan::Pro);
    license.expires_at = Some(10);
    assert!(license.is_valid_at(10));
    assert!(!license.is_valid_at(11));
}

#[test]
fn test_webhook_subscription_update() {
    let mut license = License::new("sub_3".into(), "a@b.c".into(), Plan::Free);
    apply_subscription_update(&mut license, "past_due", Some(Plan::Pro));
    assert!(!license.active);
    assert_eq!(license.plan, Plan::Pro);

    apply_subscription_update(&mut license, "active", None);
    assert!(license.active);
    assert_eq!(license.plan, Plan::Pro);

    apply_subscription_update(&mut license, "trialing", None);
    assert!(license.active);
}

#[test]
fn test_checkout_plan_resolution() {
    assert_eq!(resolve_checkout_plan(Some("team")), Plan::Team);
    assert_eq!(resolve_checkout_plan(Some("garbage")), Plan::Free);
    assert_eq!(resolve_checkout_plan(None), Plan::Pro);
}

#[test]
fn test_payment_error_classification() {
    assert!(PaymentError::Stripe("x".into()).is_retryable());
    assert!(PaymentError::Storage("x".into()).is_retryable());
    assert!(!PaymentError::RateLimited.is_retryable());
    assert_eq!(
        PaymentError::RateLimited.user_message(),
        "You've exceeded your usage limit."
    );
    assert_eq!(
        PaymentError::LicenseNotFound("k".into()).user_message(),
        "License key not found."
    );
}

#[test]
fn test_agent_error_messages() {
    assert_eq!(
        AgentError::MaxIterations(10).message(),
        "Maximum iterations (10) reached"
    );
    assert_eq!(
        AgentError::ToolNotFound("clock".into()).message(),
        "Tool not found: clock"
    );
    assert_eq!(
        AgentError::ContextOverflow { used: 9000, max: 8192 }.message(),
        "Context length exceeded: 9000 tokens (max: 8192)"
    );
    assert_eq!(
        AgentError::ToolNotFound("clock".into()).user_message(),
        "The tool 'clock' is not available."
    );
    assert!(AgentError::RateLimited("slow down".into()).is_retryable());
    assert!(!AgentError::Provider("boom".into()).is_retryable());
}

#[test]
fn test_chat_license_rejection() {
    let ok = LicenseVerification::valid(Plan::Pro, 10);
    assert!(chat_license_rejection(&ok).is_none());

    let bad = LicenseVerification::invalid("Rate limit exceeded");
    let resp = chat_license_rejection(&bad).expect("rejection");
    assert_eq!(resp.code, "INVALID_LICENSE");
    assert_eq!(resp.error, "Rate limit exceeded");
}

#[test]
fn test_session_creation() {
    let session = Session::new();
    assert!(session.active);
    assert_eq!(session.message_count(), 0);
}

#[test]
fn test_session_title_paths() {
    let mut s = Session::new();
    assert!(s.title().starts_with("Session "));

    s.conversation.push(agent_core::message::Message::user("What is the answer?"));
    assert_eq!(s.title(), "What is the answer?");

    let mut long = Session::new();
    long.conversation.push(agent_core::message::Message::user(&"z".repeat(80)));
    assert_eq!(long.title(), format!("{}...", "z".repeat(50)));

    s.set_title("My session");
    assert_eq!(s.title(), "My session");
}

#[test]
fn test_session_id_roundtrip() {
    let id = SessionId::from_string("abc-123");
    assert_eq!(id.as_str(), "abc-123");
    assert_eq!(SessionId::new().as_str().len(), 36);
}

#[test]
fn test_tier_description_labels() {
    assert_eq!(tier_description(1), "Blue Chip - Lowest relative risk");
    assert_eq!(tier_description(5), "Meme/Speculative - Extreme risk");
    assert_eq!(tier_description(9), "Unknown");
}
