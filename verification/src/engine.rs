//! The dispatch engine.
//!
//! For an incoming event the engine selects the subscriptions to notify: a
//! subscription is selected exactly when it is active, the event's kind is a
//! member of its subscribed-kind list, and its filter predicate is satisfied
//! by the event's payload. Each selected subscription yields one handoff
//! request for the delivery subsystem. The surrounding application performs
//! the storage read that produces the subscription list and the network
//! handoffs themselves; a handoff failure is recorded per subscription and
//! never suppresses the others, while a failed storage read fails the whole
//! dispatch with no handoff attempted.

#![verifier::loop_isolation(false)]

use vstd::prelude::*;
use vstd::string::StringExecFns;
use crate::events::{spec_event_kind, spec_payload, Event};
use crate::filter::{matches_value, spec_matches};
use crate::kinds::{kind_list_contains, kind_list_has, spec_kind_id, EventKind};
use crate::subscription::{Subscription, SubscriptionV};
use crate::value::{Val, Value};

verus! {

broadcast use vstd::std_specs::vec::group_vec_axioms, vstd::seq::group_seq_axioms;

/// A failed read of the subscription store, as handed to the engine.
#[derive(Debug)]
pub struct FetchError {
    /// What the store reported.
    pub message: String,
}

/// A failed dispatch: the selection step could not run, so no subscription
/// was notified. Carries a message and the underlying cause.
#[derive(Debug)]
pub struct DispatchError {
    pub message: String,
    pub cause: Option<String>,
}

/// Mathematical model of a handoff request.
pub struct HandoffRequestV {
    pub subscription_id: Seq<char>,
    pub kind: EventKind,
    pub payload: Val,
}

/// One delivery request: hand this event payload to this subscription.
#[derive(Debug)]
pub struct HandoffRequest {
    pub subscription_id: String,
    pub kind: EventKind,
    pub payload: Value,
}

impl View for HandoffRequest {
    type V = HandoffRequestV;

    open spec fn view(&self) -> HandoffRequestV {
        HandoffRequestV {
            subscription_id: self.subscription_id@,
            kind: self.kind,
            payload: self.payload@,
        }
    }
}

/// Mathematical model of a handoff outcome.
pub enum HandoffOutcomeV {
    Delivered,
    Failed(Seq<char>),
}

/// What the delivery subsystem reported for one handoff.
#[derive(Debug)]
pub enum HandoffOutcome {
    /// The delivery subsystem accepted the request.
    Delivered,
    /// The handoff failed; the reason is recorded, non-fatal to the batch.
    Failed(String),
}

impl View for HandoffOutcome {
    type V = HandoffOutcomeV;

    open spec fn view(&self) -> HandoffOutcomeV {
        match self {
            HandoffOutcome::Delivered => HandoffOutcomeV::Delivered,
            HandoffOutcome::Failed(reason) => HandoffOutcomeV::Failed(reason@),
        }
    }
}

/// Mathematical model of a dispatch result.
pub struct DispatchResultV {
    pub subscription_id: Seq<char>,
    pub kind: EventKind,
    pub outcome: HandoffOutcomeV,
}

/// The recorded outcome of one (event, subscription) handoff.
#[derive(Debug)]
pub struct DispatchResult {
    pub subscription_id: String,
    pub kind: EventKind,
    pub outcome: HandoffOutcome,
}

impl View for DispatchResult {
    type V = DispatchResultV;

    open spec fn view(&self) -> DispatchResultV {
        DispatchResultV {
            subscription_id: self.subscription_id@,
            kind: self.kind,
            outcome: self.outcome@,
        }
    }
}

/// The models of a sequence of subscriptions.
pub open spec fn subs_model(subs: Seq<Subscription>) -> Seq<SubscriptionV> {
    Seq::new(subs.len(), |i: int| subs[i]@)
}

/// The models of a sequence of handoff requests.
pub open spec fn reqs_model(reqs: Seq<HandoffRequest>) -> Seq<HandoffRequestV> {
    Seq::new(reqs.len(), |i: int| reqs[i]@)
}

/// The models of a sequence of handoff outcomes.
pub open spec fn outcomes_model(outcomes: Seq<HandoffOutcome>) -> Seq<HandoffOutcomeV> {
    Seq::new(outcomes.len(), |i: int| outcomes[i]@)
}

/// The models of a sequence of dispatch results.
pub open spec fn results_model(results: Seq<DispatchResult>) -> Seq<DispatchResultV> {
    Seq::new(results.len(), |i: int| results[i]@)
}

/// The dispatch results that pair each handoff request with the outcome the
/// delivery subsystem reported for it: the result at a position carries that
/// position's request and outcome and nothing of the others'.
pub open spec fn spec_results(
    requests: Seq<HandoffRequestV>,
    outcomes: Seq<HandoffOutcomeV>,
) -> Seq<DispatchResultV> {
    Seq::new(
        requests.len(),
        |i: int|
            DispatchResultV {
                subscription_id: requests[i].subscription_id,
                kind: requests[i].kind,
                outcome: outcomes[i],
            },
    )
}

/// Whether a subscription is a candidate for a kind: the kind's identifier is
/// a member of its subscribed-kind list.
pub open spec fn spec_is_candidate(s: SubscriptionV, k: EventKind) -> bool {
    kind_list_has(s.event_types, spec_kind_id(k))
}

/// Whether an event of kind `k` with payload `payload` is dispatched to
/// subscription `s`: the subscription is active, the kind is a member of its
/// subscribed-kind list, and its filter predicate is satisfied.
pub open spec fn spec_selected(s: SubscriptionV, k: EventKind, payload: Val) -> bool {
    s.is_active && spec_is_candidate(s, k) && spec_matches(payload, s.filters)
}

/// The subscriptions among `subs` that are candidates for kind `k`, in order.
pub open spec fn spec_candidates(subs: Seq<SubscriptionV>, k: EventKind) -> Seq<SubscriptionV>
    decreases subs.len(),
{
    if subs.len() == 0 {
        Seq::empty()
    } else {
        let rest = spec_candidates(subs.drop_last(), k);
        if spec_is_candidate(subs.last(), k) {
            rest.push(subs.last())
        } else {
            rest
        }
    }
}

/// The handoff requests for an event of kind `k` with payload `payload`
/// against the subscriptions `subs`: one request per selected subscription,
/// in order.
pub open spec fn spec_plan(subs: Seq<SubscriptionV>, k: EventKind, payload: Val) -> Seq<
    HandoffRequestV,
>
    decreases subs.len(),
{
    if subs.len() == 0 {
        Seq::empty()
    } else {
        let rest = spec_plan(subs.drop_last(), k, payload);
        if spec_selected(subs.last(), k, payload) {
            rest.push(
                HandoffRequestV { subscription_id: subs.last().id, kind: k, payload },
            )
        } else {
            rest
        }
    }
}

/// The webhook event service: the dispatch engine over a subscription list
/// read from the store. It holds no state of its own; every operation is a
/// pure function of its arguments.
pub struct WebhookEventService {}

impl WebhookEventService {
    /// A new dispatch engine.
    pub fn new() -> WebhookEventService {
        WebhookEventService {}
    }

    /// Applies a filter predicate to a payload: true exactly when every key
    /// of an object predicate is present in the payload with exactly the
    /// expected value. A non-object predicate matches everything.
    pub fn apply_filters(&self, payload: &Value, filters: &Value) -> (r: bool)
        ensures
            r == spec_matches(payload@, Some(filters@)),
    {
        matches_value(payload, filters)
    }

    /// The subscriptions whose subscribed-kind list names `k`, active or not:
    /// filtering by the active flag and the predicate is the dispatch step's
    /// job, not the accessor's.
    pub fn subscriptions_for_kind(&self, subs: &Vec<Subscription>, k: EventKind) -> (r: Vec<
        Subscription,
    >)
        ensures
            subs_model(r@) == spec_candidates(subs_model(subs@), k),
    {
        let mut r: Vec<Subscription> = Vec::new();
        let mut i: usize = 0;
        while i < subs.len()
            invariant
                i <= subs@.len(),
                subs_model(r@) == spec_candidates(subs_model(subs@.take(i as int)), k),
            decreases subs@.len() - i,
        {
            let ghost prefix = subs_model(subs@.take(i as int));
            if kind_list_contains(subs[i].event_types.as_str(), k) {
                r.push(subs[i].duplicate());
            }
            proof {
                assert(subs_model(subs@.take(i + 1)).drop_last() =~= prefix);
                assert(subs_model(subs@.take(i + 1)).last() == subs@[i as int]@);
                assert(subs_model(r@) =~= spec_candidates(subs_model(subs@.take(i + 1)), k));
            }
            i = i + 1;
        }
        proof {
            assert(subs@.take(subs@.len() as int) =~= subs@);
        }
        r
    }

    /// The handoff requests for `event` against the outcome of the store
    /// read: one request per selected subscription, in order, or the
    /// propagated selection failure with no request made.
    pub fn dispatch(&self, event: &Event, fetched: Result<Vec<Subscription>, FetchError>) -> (r:
        Result<Vec<HandoffRequest>, DispatchError>)
        ensures
            match fetched {
                Ok(subs) => r matches Ok(reqs) && reqs_model(reqs@) == spec_plan(
                    subs_model(subs@),
                    spec_event_kind(*event),
                    spec_payload(*event),
                ),
                Err(e) => r matches Err(d) && d.message@ == "subscription fetch failed"@
                    && d.cause == Some(e.message),
            },
    {
        let subs = match fetched {
            Ok(subs) => subs,
            Err(e) => {
                return Err(
                    DispatchError {
                        message: String::from_str("subscription fetch failed"),
                        cause: Some(e.message),
                    },
                );
            },
        };
        let k = event.kind();
        let payload = event.payload();
        let mut reqs: Vec<HandoffRequest> = Vec::new();
        let mut i: usize = 0;
        while i < subs.len()
            invariant
                i <= subs@.len(),
                k == spec_event_kind(*event),
                payload@ == spec_payload(*event),
                reqs_model(reqs@) == spec_plan(subs_model(subs@.take(i as int)), k, payload@),
            decreases subs@.len() - i,
        {
            let ghost prefix = subs_model(subs@.take(i as int));
            let sub = &subs[i];
            if sub.is_active && kind_list_contains(sub.event_types.as_str(), k) && (crate::filter::matches(
                &payload,
                &sub.filters,
            )) {
                reqs.push(
                    HandoffRequest {
                        subscription_id: sub.id.clone(),
                        kind: k,
                        payload: payload.duplicate(),
                    },
                );
            }
            proof {
                assert(subs_model(subs@.take(i + 1)).drop_last() =~= prefix);
                assert(subs_model(subs@.take(i + 1)).last() == subs@[i as int]@);
                assert(reqs_model(reqs@) =~= spec_plan(subs_model(subs@.take(i + 1)), k, payload@));
            }
            i = i + 1;
        }
        proof {
            assert(subs@.take(subs@.len() as int) =~= subs@);
        }
        Ok(reqs)
    }

    /// Pairs each handoff request with the outcome the delivery subsystem
    /// reported for it: one dispatch result per request, in order, each
    /// carrying its own outcome and nothing of the others'.
    pub fn assemble_results(
        &self,
        requests: &Vec<HandoffRequest>,
        outcomes: &Vec<HandoffOutcome>,
    ) -> (r: Vec<DispatchResult>)
        requires
            requests@.len() == outcomes@.len(),
        ensures
            r@.len() == requests@.len(),
            results_model(r@) == spec_results(reqs_model(requests@), outcomes_model(outcomes@)),
    {
        let mut r: Vec<DispatchResult> = Vec::new();
        let mut i: usize = 0;
        while i < requests.len()
            invariant
                i <= requests@.len(),
                requests@.len() == outcomes@.len(),
                r@.len() == i,
                forall|j: int|
                    0 <= j < i ==> r@[j]@ == (DispatchResultV {
                        subscription_id: requests@[j]@.subscription_id,
                        kind: requests@[j]@.kind,
                        outcome: outcomes@[j]@,
                    }),
            decreases requests@.len() - i,
        {
            let outcome = match &outcomes[i] {
                HandoffOutcome::Delivered => HandoffOutcome::Delivered,
                HandoffOutcome::Failed(reason) => HandoffOutcome::Failed(reason.clone()),
            };
            r.push(
                DispatchResult {
                    subscription_id: requests[i].subscription_id.clone(),
                    kind: requests[i].kind,
                    outcome,
                },
            );
            i = i + 1;
        }
        proof {
            assert(results_model(r@) =~= spec_results(
                reqs_model(requests@),
                outcomes_model(outcomes@),
            ));
        }
        r
    }
}

} // verus!
