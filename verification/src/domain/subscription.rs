//! The subscription read model a use case consults for tier limits.

use vstd::prelude::*;

use uuid::Uuid;

verus! {

/// The billing tier of an account.
#[derive(Debug, Clone, Copy, PartialEq, Eq, Structural)]
pub enum SubscriptionTier {
    Free,
    Pro,
    Enterprise,
}

/// The canonical label of each tier, as displayed in messages.
pub open spec fn tier_label(t: SubscriptionTier) -> Seq<char> {
    match t {
        SubscriptionTier::Free => "free"@,
        SubscriptionTier::Pro => "pro"@,
        SubscriptionTier::Enterprise => "enterprise"@,
    }
}

impl SubscriptionTier {
    /// The canonical label of this tier.
    pub fn as_str(&self) -> (r: &'static str)
        ensures
            r@ == tier_label(*self),
    {
        match self {
            SubscriptionTier::Free => "free",
            SubscriptionTier::Pro => "pro",
            SubscriptionTier::Enterprise => "enterprise",
        }
    }
}

/// The mathematical shape of a subscription.
pub struct SubscriptionV {
    pub user_id: Uuid,
    pub tier: SubscriptionTier,
    pub max_endpoints: i32,
}

/// A user's subscription: the tier and the endpoint allowance it grants.
#[derive(Debug)]
pub struct Subscription {
    user_id: Uuid,
    tier: SubscriptionTier,
    max_endpoints: i32,
}

impl View for Subscription {
    type V = SubscriptionV;

    closed spec fn view(&self) -> SubscriptionV {
        SubscriptionV { user_id: self.user_id, tier: self.tier, max_endpoints: self.max_endpoints }
    }
}

impl Clone for Subscription {
    fn clone(&self) -> (r: Self)
        ensures
            r@ == self@,
    {
        Subscription { user_id: self.user_id, tier: self.tier, max_endpoints: self.max_endpoints }
    }
}

impl Subscription {
    /// Reconstruct from existing data (e.g. from the database); adopted
    /// without validation.
    pub fn from_existing(user_id: Uuid, tier: SubscriptionTier, max_endpoints: i32) -> (r:
        Subscription)
        ensures
            r@ == (SubscriptionV { user_id, tier, max_endpoints }),
    {
        Subscription { user_id, tier, max_endpoints }
    }

    pub fn user_id(&self) -> (r: &Uuid)
        ensures
            *r == self@.user_id,
    {
        &self.user_id
    }

    pub fn tier(&self) -> (r: SubscriptionTier)
        ensures
            r == self@.tier,
    {
        self.tier
    }

    pub fn max_endpoints(&self) -> (r: i32)
        ensures
            r == self@.max_endpoints,
    {
        self.max_endpoints
    }
}

} // verus!
