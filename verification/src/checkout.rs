//! Checkout data: plan pricing and the request/result shapes exchanged
//! with the hosted payment page.  The payment processor itself is an
//! external collaborator driven by the hosting application.

use vstd::prelude::*;
use vstd::string::StringExecFns;

use crate::license::Plan;

verus! {

/// Billing interval.
#[derive(Clone, Copy, Debug, PartialEq, Eq, Structural)]
pub enum BillingInterval {
    Monthly,
    Yearly,
}

/// Pricing information for one plan.
#[derive(Clone, Debug)]
pub struct PlanPricing {
    pub name: String,
    pub description: String,
    /// Price in US cents per interval
    pub cents: i64,
    pub interval: BillingInterval,
}

/// Request to create a checkout session.
#[derive(Clone, Debug)]
pub struct CheckoutRequest {
    /// Plan to purchase
    pub plan: Plan,
    /// Customer email
    pub customer_email: String,
    /// URL to redirect to after successful payment
    pub success_url: String,
    /// URL to redirect to if checkout is cancelled
    pub cancel_url: String,
    /// Optional user ID for tracking
    pub user_id: Option<String>,
}

/// Result of creating a checkout session.
#[derive(Clone, Debug)]
pub struct CheckoutSession {
    /// Payment processor session ID
    pub id: String,
    /// URL to redirect the user to
    pub checkout_url: String,
    /// Plan being purchased
    pub plan: Plan,
    /// Customer email
    pub customer_email: String,
}

impl Plan {
    /// Pricing for this plan: the free tier costs nothing, the pro tier
    /// 2900 cents a month, and the team tier 9900 cents a month.
    pub fn pricing(&self) -> (r: PlanPricing)
        ensures
            r.interval is Monthly,
            match self {
                Plan::Free => r.cents == 0 && r.name@ == "Free"@ && r.description@
                    == "Basic access with limits"@,
                Plan::Pro => r.cents == 2900 && r.name@ == "Agent Pro"@ && r.description@
                    == "Unlimited local inference, priority support"@,
                Plan::Team => r.cents == 9900 && r.name@ == "Agent Team"@ && r.description@
                    == "5 seats, API access, custom integrations"@,
            },
    {
        match self {
            Plan::Free => PlanPricing {
                name: String::from_str("Free"),
                description: String::from_str("Basic access with limits"),
                cents: 0,
                interval: BillingInterval::Monthly,
            },
            Plan::Pro => PlanPricing {
                name: String::from_str("Agent Pro"),
                description: String::from_str("Unlimited local inference, priority support"),
                cents: 2900,
                interval: BillingInterval::Monthly,
            },
            Plan::Team => PlanPricing {
                name: String::from_str("Agent Team"),
                description: String::from_str("5 seats, API access, custom integrations"),
                cents: 9900,
                interval: BillingInterval::Monthly,
            },
        }
    }
}

} // verus!
