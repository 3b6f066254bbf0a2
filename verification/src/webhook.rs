//! Subscription lifecycle events and what they do to a stored license.
//!
//! Raw webhook payloads are verified and decomposed by the hosting
//! application; the decisions they trigger are made here.

use vstd::prelude::*;

use crate::license::License;
use crate::license::Plan;
use crate::license::spec_plan_from_tag;
use crate::outside::lower_of;

verus! {

/// A parsed subscription lifecycle event.
#[derive(Clone, Debug)]
pub enum WebhookEvent {
    /// Checkout completed: create a license
    CheckoutCompleted {
        session_id: String,
        subscription_id: String,
        customer_email: String,
        plan: Plan,
    },
    /// Subscription updated: activity and plan may change
    SubscriptionUpdated { subscription_id: String, status: String, plan: Option<Plan> },
    /// Subscription cancelled: deactivate the license
    SubscriptionCancelled { subscription_id: String },
    /// Payment failed: may need notification
    PaymentFailed { subscription_id: Option<String>, customer_email: Option<String> },
    /// Unhandled event type
    Other { event_type: String },
}

/// The plan bought at checkout, read from the session metadata: the tagged
/// plan when present, the pro tier when absent.
pub fn resolve_checkout_plan(meta_plan: Option<&str>) -> (r: Plan)
    ensures
        match meta_plan {
            Some(tag) => r == spec_plan_from_tag(lower_of(tag@)),
            None => r is Pro,
        },
{
    match meta_plan {
        Some(tag) => Plan::from_str(tag),
        None => Plan::Pro,
    }
}

/// Apply a subscription update to a stored license: the license is active
/// exactly for the `active` and `trialing` statuses, and the plan changes
/// when the update names one.
pub fn apply_subscription_update(license: &mut License, status: &str, new_plan: Option<Plan>)
    ensures
        final(license).active == (status@ == "active"@ || status@ == "trialing"@),
        final(license).plan == match new_plan {
            Some(p) => p,
            None => old(license).plan,
        },
        final(license).key == old(license).key,
        final(license).subscription_id == old(license).subscription_id,
        final(license).email == old(license).email,
        final(license).created_at == old(license).created_at,
        final(license).expires_at == old(license).expires_at,
        final(license).last_verified == old(license).last_verified,
        final(license).usage_today == old(license).usage_today,
        final(license).usage_reset_date == old(license).usage_reset_date,
{
    let is_active = crate::strutil::str_eq(status, "active") || crate::strutil::str_eq(
        status,
        "trialing",
    );
    if is_active {
        license.reactivate();
    } else {
        license.deactivate();
    }
    if let Some(p) = new_plan {
        license.plan = p;
    }
}

} // verus!
