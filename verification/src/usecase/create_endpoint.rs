//! The create-endpoint use case: the template operation. Plain input in,
//! plain output out; guard clauses in the fixed order — actor
//! authentication, input validation, precondition fetch, entity
//! construction, atomic limit-checked persistence, interpretation of the
//! result.

use vstd::prelude::*;

use crate::domain::endpoint::{Endpoint, EndpointV};
use crate::domain::error::DomainErrorV;
use crate::domain::subscription::{tier_label, SubscriptionTier, SubscriptionV};
use crate::domain::values::{valid_name, valid_url, EndpointName, WebhookUrl};
use crate::ext::{is_id_char, nanoid_string, spec_uuid_is_nil, uuid_is_nil};
use crate::repo::contract::{
    distinct_subscription_users, has_subscription_for, lemma_live_count_push, live_count_for,
    EndpointRepository, SubscriptionRepository,
};
use crate::text::{dec_str_int, i64_to_dec, is_space, lemma_trim_noop, trim_spec};
use crate::usecase::error::{UsecaseError, UsecaseErrorV};
use uuid::Uuid;

verus! {

/// The plain input record: raw primitives, no domain types.
#[derive(Debug)]
pub struct CreateEndpointInput {
    pub user_id: Uuid,
    pub name: String,
    pub provider_label: Option<String>,
}

/// The plain output record: wire-friendly primitives; the domain entity
/// never escapes the use case. `created_at` is unix milliseconds.
#[derive(Debug)]
pub struct CreateEndpointOutput {
    pub id: Uuid,
    pub name: String,
    pub webhook_url: String,
    pub provider_label: Option<String>,
    pub created_at: i64,
}

/// The index of the user's subscription row, when one exists.
pub open spec fn sub_index_for(subs: Seq<SubscriptionV>, user: Uuid) -> int {
    choose|i: int| 0 <= i < subs.len() && subs[i].user_id == user
}

/// The endpoint allowance the use case enforces for `user`: the
/// subscription's allowance, or the free default of one endpoint when the
/// user has no subscription row.
pub open spec fn spec_limit_for(subs: Seq<SubscriptionV>, user: Uuid) -> int {
    if has_subscription_for(subs, user) {
        subs[sub_index_for(subs, user)].max_endpoints as int
    } else {
        1
    }
}

/// The tier named in the limit message: the subscription's tier, or the
/// free tier without a subscription row.
pub open spec fn spec_tier_for(subs: Seq<SubscriptionV>, user: Uuid) -> SubscriptionTier {
    if has_subscription_for(subs, user) {
        subs[sub_index_for(subs, user)].tier
    } else {
        SubscriptionTier::Free
    }
}

/// The message of a refused creation: which tier, and which allowance was
/// reached.
pub open spec fn tier_limit_message(t: SubscriptionTier, max: int) -> Seq<char> {
    tier_label(t) + " tier allows "@ + dec_str_int(max) + " endpoints. Limit reached."@
}

/// With at most one subscription row per user, any row of the user fixes
/// the limit and the tier.
proof fn lemma_sub_lookup(subs: Seq<SubscriptionV>, user: Uuid, s: SubscriptionV)
    requires
        distinct_subscription_users(subs),
        subs.contains(s),
        s.user_id == user,
    ensures
        spec_limit_for(subs, user) == s.max_endpoints as int,
        spec_tier_for(subs, user) == s.tier,
{
    let j = choose|j: int| 0 <= j < subs.len() && subs[j] == s;
    assert(has_subscription_for(subs, user));
    let i = sub_index_for(subs, user);
    assert(0 <= i < subs.len() && subs[i].user_id == user);
    assert(subs[i] == subs[j]);
}

/// The create-endpoint operation, generic over the repository contracts it
/// depends on.
pub struct CreateEndpointUseCase<E: EndpointRepository, S: SubscriptionRepository> {
    endpoint_repo: E,
    subscription_repo: S,
}

impl<E: EndpointRepository, S: SubscriptionRepository> CreateEndpointUseCase<E, S> {
    /// The endpoint rows the held repository persists.
    pub closed spec fn endpoints(&self) -> Seq<EndpointV> {
        self.endpoint_repo.rows()
    }

    /// The subscription rows the held repository persists.
    pub closed spec fn subscriptions(&self) -> Seq<SubscriptionV> {
        self.subscription_repo.subs()
    }

    /// Both held repositories are well-formed.
    pub closed spec fn wf(&self) -> bool {
        self.endpoint_repo.inv() && self.subscription_repo.inv()
    }

    pub fn new(endpoint_repo: E, subscription_repo: S) -> (r: Self)
        ensures
            r.endpoints() == endpoint_repo.rows(),
            r.subscriptions() == subscription_repo.subs(),
            endpoint_repo.inv() && subscription_repo.inv() ==> r.wf(),
    {
        CreateEndpointUseCase { endpoint_repo, subscription_repo }
    }

    /// Hand the held repositories back, e.g. so a caller can inspect the
    /// store after a run.
    pub fn into_parts(self) -> (r: (E, S))
        ensures
            r.0.rows() == self.endpoints(),
            r.1.subs() == self.subscriptions(),
            self.wf() ==> r.0.inv() && r.1.inv(),
    {
        (self.endpoint_repo, self.subscription_repo)
    }

    /// Execute one creation.
    ///
    /// A nil actor is unauthorized. A name that fails validation is
    /// rejected with the domain's rendering, and persistence is not
    /// touched. Otherwise the entity is persisted through the atomic
    /// limit-checked operation: on success exactly one row for the actor
    /// was appended and the actor's live count stays at or under the
    /// enforced limit; a refusal reports the tier-limit message and
    /// changes nothing; a unique-key conflict or an infrastructure failure
    /// changes nothing. No other outcome is possible.
    pub fn execute(&mut self, input: CreateEndpointInput) -> (r: Result<
        CreateEndpointOutput,
        UsecaseError,
    >)
        requires
            old(self).wf(),
        ensures
            final(self).wf(),
            final(self).subscriptions() == old(self).subscriptions(),
            spec_uuid_is_nil(input.user_id) ==> (r matches Err(e) && e@
                == UsecaseErrorV::Unauthorized && final(self).endpoints() == old(
                self,
            ).endpoints()),
            !spec_uuid_is_nil(input.user_id) && !valid_name(input.name@) ==> (r matches Err(e)
                && (e@ matches UsecaseErrorV::Validation(m) && m
                == crate::domain::error::spec_render(
                DomainErrorV::InvalidField {
                    field: "name"@,
                    reason: if trim_spec(input.name@).len() == 0 {
                        "empty"@
                    } else {
                        "too long"@
                    },
                },
            )) && final(self).endpoints() == old(self).endpoints()),
            !spec_uuid_is_nil(input.user_id) && valid_name(input.name@) ==> match r {
                Ok(out) => {
                    &&& exists|e: EndpointV|
                        {
                            &&& final(self).endpoints() == old(self).endpoints().push(e)
                            &&& e.user_id == input.user_id
                            &&& e.name == trim_spec(input.name@)
                            &&& e.deleted_at is None
                            &&& e.total_events == 0
                            &&& out.id == e.id
                            &&& out.name@ == e.name
                            &&& out.webhook_url@ == e.webhook_url
                            &&& out.created_at == e.created_at
                        }
                    &&& live_count_for(old(self).endpoints(), input.user_id) < spec_limit_for(
                        old(self).subscriptions(),
                        input.user_id,
                    )
                    &&& live_count_for(final(self).endpoints(), input.user_id)
                        <= spec_limit_for(old(self).subscriptions(), input.user_id)
                },
                Err(e) => match e@ {
                    UsecaseErrorV::TierLimitExceeded(m) => {
                        &&& final(self).endpoints() == old(self).endpoints()
                        &&& live_count_for(old(self).endpoints(), input.user_id)
                            >= spec_limit_for(old(self).subscriptions(), input.user_id)
                        &&& m == tier_limit_message(
                            spec_tier_for(old(self).subscriptions(), input.user_id),
                            spec_limit_for(old(self).subscriptions(), input.user_id),
                        )
                    },
                    UsecaseErrorV::Conflict(_) => final(self).endpoints() == old(
                        self,
                    ).endpoints(),
                    UsecaseErrorV::Infra => final(self).endpoints() == old(self).endpoints(),
                    _ => false,
                },
            },
    {
        // (a) actor authentication
        if uuid_is_nil(&input.user_id) {
            return Err(UsecaseError::Unauthorized);
        }
        // (b) input validation via the domain value object
        let name = match EndpointName::new(input.name) {
            Ok(n) => n,
            Err(e) => {
                return Err(UsecaseError::from_domain(e));
            },
        };
        // (c) fetch preconditions
        let subscription = match self.subscription_repo.find_by_user(&input.user_id) {
            Ok(s) => s,
            Err(e) => {
                return Err(UsecaseError::from_repo(e));
            },
        };
        let (max_endpoints, tier) = match &subscription {
            Some(sub) => {
                proof {
                    self.subscription_repo.inv_properties();
                    lemma_sub_lookup(self.subscription_repo.subs(), input.user_id, sub@);
                }
                (sub.max_endpoints() as i64, sub.tier())
            },
            None => (1i64, SubscriptionTier::Free),
        };
        // (e) construct the domain entity, with a generated webhook URL
        let suffix = nanoid_string(21);
        let url_raw = String::from_str("https://hooks.example.dev/in/wh_").concat(
            suffix.as_str(),
        );
        proof {
            reveal_strlit("https://hooks.example.dev/in/wh_");
            assert(url_raw@.len() == 53);
            assert(url_raw@[0] == 'h');
            assert(is_id_char(suffix@[20]));
            assert(url_raw@[52] == suffix@[20]);
            assert(!is_space(url_raw@[0]));
            assert(!is_space(url_raw@[52]));
            lemma_trim_noop(url_raw@);
            assert(valid_url(url_raw@));
        }
        let webhook_url = WebhookUrl::new(url_raw).unwrap();
        let endpoint = Endpoint::new(input.user_id, name, webhook_url, input.provider_label);
        // (f) atomic create with the tier-limit check
        let created = match self.endpoint_repo.create_if_under_limit(
            &endpoint,
            &input.user_id,
            max_endpoints,
        ) {
            Ok(c) => c,
            Err(e) => {
                return Err(UsecaseError::from_repo(e));
            },
        };
        // (g) interpret the boolean outcome
        if !created {
            let count_text = i64_to_dec(max_endpoints);
            let msg = String::from_str(tier.as_str()).concat(" tier allows ").concat(
                count_text.as_str(),
            ).concat(" endpoints. Limit reached.");
            return Err(UsecaseError::TierLimitExceeded(msg));
        }
        // (h) plain output; the entity does not escape
        proof {
            lemma_live_count_push(old(self).endpoints(), input.user_id, endpoint@);
        }
        Ok(
            CreateEndpointOutput {
                id: *endpoint.id().as_uuid(),
                name: endpoint.name().as_str().to_owned(),
                webhook_url: endpoint.webhook_url().as_str().to_owned(),
                provider_label: match endpoint.provider_label() {
                    Some(s) => Some(s.to_owned()),
                    None => None,
                },
                created_at: endpoint.created_at(),
            },
        )
    }
}

} // verus!
