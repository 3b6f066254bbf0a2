//! License keys, subscription plans, and the per-day usage rules a
//! license enforces.

use vstd::prelude::*;
use vstd::string::StrSliceExecFns;
use vstd::string::StringExecFns;
use vstd::utf8::is_ascii_chars;

use crate::outside::lower_of;
use crate::outside::now_micros;
use crate::outside::spec_all_ascii;
use crate::outside::spec_ascii_lower;
use crate::outside::spec_ascii_upper;
use crate::outside::spec_is_lower_hex;
use crate::outside::to_lower;
use crate::outside::to_upper;
use crate::outside::today_days;
use crate::outside::upper_of;
use crate::outside::uuid_simple;

verus! {

/// Whether `c` is an uppercase hexadecimal digit.
pub open spec fn spec_is_upper_hex(c: char) -> bool {
    ('0' <= c && c <= '9') || ('A' <= c && c <= 'F')
}

/// A license key, uppercased, formatted `XXXX-XXXX-XXXX-XXXX` when
/// generated here.
#[derive(Clone, Debug, PartialEq, Eq, Hash)]
pub struct LicenseKey(String);

impl LicenseKey {
    /// The key's text.
    pub closed spec fn spec_str(&self) -> Seq<char> {
        self.0@
    }

    /// Generate a new license key: four groups of four uppercase
    /// hexadecimal digits, separated by hyphens.
    pub fn generate() -> (r: Self)
        ensures
            r.spec_str().len() == 19,
            forall|i: int|
                0 <= i < 19 ==> if i == 4 || i == 9 || i == 14 {
                    r.spec_str()[i] == '-'
                } else {
                    spec_is_upper_hex(#[trigger] r.spec_str()[i])
                },
    {
        let hex = uuid_simple();
        proof {
            assert(forall|i: int| 0 <= i < 32 ==> (#[trigger] hex@[i] as u32) < 128);
        }
        let upper = to_upper(hex.as_str());
        proof {
            assert(upper@ == spec_ascii_upper(hex@));
            assert(upper@.len() == 32);
            assert(forall|i: int|
                0 <= i < 32 ==> spec_is_upper_hex(#[trigger] upper@[i]) && '\0' <= upper@[i]
                    <= '\u{7f}');
            assert(is_ascii_chars(upper@));
        }
        let u = upper.as_str();
        let mut key = String::new();
        key.append(u.substring_ascii(0, 4));
        key.append("-");
        key.append(u.substring_ascii(4, 8));
        key.append("-");
        key.append(u.substring_ascii(8, 12));
        key.append("-");
        key.append(u.substring_ascii(12, 16));
        proof {
            reveal_strlit("-");
            assert(key@.len() == 19);
            assert(forall|i: int| 0 <= i < 4 ==> key@[i] == upper@[i]);
            assert(key@[4] == '-');
            assert(forall|i: int| 5 <= i < 9 ==> key@[i] == upper@[i - 1]);
            assert(key@[9] == '-');
            assert(forall|i: int| 10 <= i < 14 ==> key@[i] == upper@[i - 2]);
            assert(key@[14] == '-');
            assert(forall|i: int| 15 <= i < 19 ==> key@[i] == upper@[i - 3]);
        }
        LicenseKey(key)
    }

    /// Parse from a string, uppercasing it.
    pub fn from_string(s: &str) -> (r: Self)
        ensures
            r.spec_str() == upper_of(s@),
            spec_all_ascii(s@) ==> r.spec_str() == spec_ascii_upper(s@),
    {
        LicenseKey(to_upper(s))
    }

    /// The key as a string.
    pub fn as_str(&self) -> (r: &str)
        ensures
            r@ == self.spec_str(),
    {
        self.0.as_str()
    }
}

/// Subscription plan tiers.
#[derive(Clone, Copy, Debug, PartialEq, Eq, Structural)]
pub enum Plan {
    Free,
    Pro,
    Team,
}

impl Default for Plan {
    /// The free tier.
    fn default() -> (r: Self)
        ensures
            r is Free,
    {
        Plan::Free
    }
}

/// The plan named by a lowercase tag; anything unrecognized is the free
/// tier.
pub open spec fn spec_plan_from_tag(tag: Seq<char>) -> Plan {
    if tag == "pro"@ {
        Plan::Pro
    } else if tag == "team"@ {
        Plan::Team
    } else {
        Plan::Free
    }
}

/// The requests-per-day allowance of a plan.
pub open spec fn spec_rate_limit(p: Plan) -> int {
    match p {
        Plan::Free => 50,
        Plan::Pro => u32::MAX as int,
        Plan::Team => u32::MAX as int,
    }
}

impl Plan {
    /// The plan's lowercase tag.
    pub fn as_str(&self) -> (r: &'static str)
        ensures
            match self {
                Plan::Free => r@ == "free"@,
                Plan::Pro => r@ == "pro"@,
                Plan::Team => r@ == "team"@,
            },
    {
        match self {
            Plan::Free => "free",
            Plan::Pro => "pro",
            Plan::Team => "team",
        }
    }

    /// Parse a plan from text, case-insensitively; anything unrecognized
    /// is the free tier.
    pub fn from_str(s: &str) -> (r: Self)
        ensures
            r == spec_plan_from_tag(lower_of(s@)),
            spec_all_ascii(s@) ==> r == spec_plan_from_tag(spec_ascii_lower(s@)),
    {
        let lower = to_lower(s);
        if crate::strutil::str_eq(lower.as_str(), "pro") {
            Plan::Pro
        } else if crate::strutil::str_eq(lower.as_str(), "team") {
            Plan::Team
        } else {
            Plan::Free
        }
    }

    /// Rate limit, in requests per day; the paid tiers are effectively
    /// unlimited.
    pub fn rate_limit(&self) -> (r: u32)
        ensures
            r as int == spec_rate_limit(*self),
    {
        match self {
            Plan::Free => 50,
            Plan::Pro => u32::MAX,
            Plan::Team => u32::MAX,
        }
    }

    /// Seat count.
    pub fn seats(&self) -> (r: u32)
        ensures
            match self {
                Plan::Free => r == 1,
                Plan::Pro => r == 1,
                Plan::Team => r == 5,
            },
    {
        match self {
            Plan::Free => 1,
            Plan::Pro => 1,
            Plan::Team => 5,
        }
    }
}

/// A license record.  Timestamps are microseconds since the Unix epoch;
/// the usage reset date is a civil-day number.
#[derive(Clone, Debug)]
pub struct License {
    /// License key
    pub key: LicenseKey,
    /// Associated subscription ID
    pub subscription_id: String,
    /// Customer email
    pub email: String,
    /// Plan tier
    pub plan: Plan,
    /// Whether the license is active
    pub active: bool,
    /// Creation timestamp (microseconds since the Unix epoch)
    pub created_at: i64,
    /// Expiration (`None` = subscription-based, auto-renews)
    pub expires_at: Option<i64>,
    /// Last verification timestamp
    pub last_verified: Option<i64>,
    /// Usage count for today (for rate limiting)
    pub usage_today: u32,
    /// The day the usage counter last reset
    pub usage_reset_date: Option<i64>,
}

/// What one day's rate-limit bookkeeping does: the counter restarts on a
/// new day, a use is refused once the plan's allowance is reached, and
/// otherwise the use is counted.
pub open spec fn spec_usage_outcome(pre: License, post: License, r: bool, today: i64) -> bool {
    let c0: int = if pre.usage_reset_date == Some(today) {
        pre.usage_today as int
    } else {
        0
    };
    post.usage_reset_date == Some(today) && if c0 >= spec_rate_limit(pre.plan) {
        !r && post.usage_today == c0
    } else {
        r && post.usage_today == c0 + 1
    }
}

/// Whether a license is valid at a given instant: active, and not past
/// its expiration.
pub open spec fn spec_valid_at(l: License, now: int) -> bool {
    l.active && match l.expires_at {
        Some(e) => now <= e,
        None => true,
    }
}

impl License {
    /// Create a new, active license with a fresh key.
    pub fn new(subscription_id: String, email: String, plan: Plan) -> (r: Self)
        ensures
            r.subscription_id == subscription_id,
            r.email == email,
            r.plan == plan,
            r.active,
            r.expires_at is None,
            r.last_verified is None,
            r.usage_today == 0,
            r.usage_reset_date is None,
            r.key.spec_str().len() == 19,
    {
        License {
            key: LicenseKey::generate(),
            subscription_id,
            email,
            plan,
            active: true,
            created_at: now_micros(),
            expires_at: None,
            last_verified: None,
            usage_today: 0,
            usage_reset_date: None,
        }
    }

    /// Whether the license is valid at the given instant.
    pub fn is_valid_at(&self, now: i64) -> (r: bool)
        ensures
            r == spec_valid_at(*self, now as int),
    {
        if !self.active {
            return false;
        }
        match self.expires_at {
            Some(e) => now <= e,
            None => true,
        }
    }

    /// Whether the license is valid now: active and not expired.  An
    /// inactive license is never valid; an active license without an
    /// expiration always is.
    pub fn is_valid(&self) -> (r: bool)
        ensures
            !self.active ==> !r,
            self.active && self.expires_at is None ==> r,
            exists|now: int| r == spec_valid_at(*self, now),
    {
        let now = now_micros();
        let r = self.is_valid_at(now);
        proof {
            assert(r == spec_valid_at(*self, now as int));
        }
        r
    }

    /// Apply the daily rate limit for the given day: reset the counter on
    /// a new day, refuse once the plan's allowance is used up, and
    /// otherwise count this use.
    pub fn check_and_increment_at(&mut self, today: i64) -> (r: bool)
        ensures
            final(self).usage_reset_date == Some(today),
            final(self).key == old(self).key,
            final(self).subscription_id == old(self).subscription_id,
            final(self).email == old(self).email,
            final(self).plan == old(self).plan,
            final(self).active == old(self).active,
            final(self).created_at == old(self).created_at,
            final(self).expires_at == old(self).expires_at,
            final(self).last_verified == old(self).last_verified,
            ({
                let c0: int = if old(self).usage_reset_date == Some(today) {
                    old(self).usage_today as int
                } else {
                    0
                };
                if c0 >= spec_rate_limit(old(self).plan) {
                    !r && final(self).usage_today == c0
                } else {
                    r && final(self).usage_today == c0 + 1
                }
            }),
    {
        let same_day = match self.usage_reset_date {
            Some(d) => d == today,
            None => false,
        };
        if !same_day {
            self.usage_today = 0;
            self.usage_reset_date = Some(today);
        }
        let limit = self.plan.rate_limit();
        if self.usage_today >= limit {
            return false;
        }
        self.usage_today = self.usage_today + 1;
        true
    }

    /// Check the rate limit against today's date and count this use.
    pub fn check_and_increment_usage(&mut self) -> (r: bool)
        ensures
            final(self).usage_reset_date is Some,
            final(self).plan == old(self).plan,
            final(self).active == old(self).active,
            final(self).key == old(self).key,
            exists|today: i64| #[trigger] spec_usage_outcome(*old(self), *final(self), r, today),
    {
        let today = today_days();
        let r = self.check_and_increment_at(today);
        proof {
            assert(spec_usage_outcome(*old(self), *final(self), r, today));
        }
        r
    }

    /// Deactivate the license.
    pub fn deactivate(&mut self)
        ensures
            !final(self).active,
            final(self).key == old(self).key,
            final(self).subscription_id == old(self).subscription_id,
            final(self).email == old(self).email,
            final(self).plan == old(self).plan,
            final(self).created_at == old(self).created_at,
            final(self).expires_at == old(self).expires_at,
            final(self).last_verified == old(self).last_verified,
            final(self).usage_today == old(self).usage_today,
            final(self).usage_reset_date == old(self).usage_reset_date,
    {
        self.active = false;
    }

    /// Reactivate the license.
    pub fn reactivate(&mut self)
        ensures
            final(self).active,
            final(self).key == old(self).key,
            final(self).subscription_id == old(self).subscription_id,
            final(self).email == old(self).email,
            final(self).plan == old(self).plan,
            final(self).created_at == old(self).created_at,
            final(self).expires_at == old(self).expires_at,
            final(self).last_verified == old(self).last_verified,
            final(self).usage_today == old(self).usage_today,
            final(self).usage_reset_date == old(self).usage_reset_date,
    {
        self.active = true;
    }
}

/// License verification result.
#[derive(Clone, Debug)]
pub struct LicenseVerification {
    pub valid: bool,
    pub plan: Option<Plan>,
    pub remaining_requests: Option<u32>,
    pub message: Option<String>,
}

impl LicenseVerification {
    /// A passing verification, with the remaining daily allowance.
    pub fn valid(plan: Plan, remaining: u32) -> (r: Self)
        ensures
            r.valid,
            r.plan == Some(plan),
            r.remaining_requests == Some(remaining),
            r.message is None,
    {
        LicenseVerification {
            valid: true,
            plan: Some(plan),
            remaining_requests: Some(remaining),
            message: None,
        }
    }

    /// A failing verification carrying a reason.
    pub fn invalid(message: &str) -> (r: Self)
        ensures
            !r.valid,
            r.plan is None,
            r.remaining_requests is None,
            r.message matches Some(m) && m@ == message@,
    {
        LicenseVerification {
            valid: false,
            plan: None,
            remaining_requests: None,
            message: Some(String::from_str(message)),
        }
    }
}

/// Atomically verify a license and count one use against it: refuse an
/// invalid license, refuse once the daily allowance is used up, and
/// otherwise report the plan and the remaining allowance.
pub fn verify_and_use_license(license: &mut License, now: i64, today: i64) -> (r:
    LicenseVerification)
    ensures
        !spec_valid_at(*old(license), now as int) ==> !r.valid && *final(license) == *old(license)
            && (r.message matches Some(m) && m@ == "License is not active"@),
        spec_valid_at(*old(license), now as int) ==> {
            let c0: int = if old(license).usage_reset_date == Some(today) {
                old(license).usage_today as int
            } else {
                0
            };
            if c0 >= spec_rate_limit(old(license).plan) {
                !r.valid && (r.message matches Some(m) && m@ == "Rate limit exceeded"@)
            } else {
                r.valid && r.plan == Some(old(license).plan) && (r.remaining_requests matches Some(
                    n,
                ) && n as int == spec_rate_limit(old(license).plan) - (c0 + 1))
            }
        },
{
    if !license.is_valid_at(now) {
        return LicenseVerification::invalid("License is not active");
    }
    if !license.check_and_increment_at(today) {
        return LicenseVerification::invalid("Rate limit exceeded");
    }
    let limit = license.plan.rate_limit();
    let remaining = if limit >= license.usage_today {
        limit - license.usage_today
    } else {
        0
    };
    LicenseVerification::valid(license.plan, remaining)
}

/// The verification reported for a stored license looked up by key, at a
/// given instant: valid licenses report their plan and remaining
/// allowance without counting a use.
pub fn verification_for(license: Option<&License>, now: i64) -> (r: LicenseVerification)
    ensures
        match license {
            Some(l) => if spec_valid_at(*l, now as int) {
                r.valid && r.plan == Some(l.plan) && (r.remaining_requests matches Some(n) && n
                    as int == (if spec_rate_limit(l.plan) >= l.usage_today as int {
                    spec_rate_limit(l.plan) - l.usage_today as int
                } else {
                    0
                }))
            } else {
                !r.valid && (r.message matches Some(m) && m@ == "License not found or invalid"@)
            },
            None => !r.valid && (r.message matches Some(m) && m@
                == "License not found or invalid"@),
        },
{
    match license {
        Some(l) => {
            if l.is_valid_at(now) {
                let limit = l.plan.rate_limit();
                let remaining = if limit >= l.usage_today {
                    limit - l.usage_today
                } else {
                    0
                };
                LicenseVerification::valid(l.plan, remaining)
            } else {
                LicenseVerification::invalid("License not found or invalid")
            }
        },
        None => LicenseVerification::invalid("License not found or invalid"),
    }
}

} // verus!
