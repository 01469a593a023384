//! The laws of the dispatch core, each stated over the mathematical models
//! and proved for every input.

#![verifier::loop_isolation(false)]

use vstd::prelude::*;
use vstd::seq_lib::group_seq_properties;
use crate::engine::{
    spec_plan, spec_results, spec_selected, HandoffOutcomeV, HandoffRequestV,
};
use crate::filter::spec_matches;
use crate::kinds::EventKind;
use crate::subscription::SubscriptionV;
use crate::value::{get_field, Val};

verus! {

broadcast use vstd::seq::group_seq_axioms;

/// An absent filter predicate matches every payload.
pub proof fn lemma_absent_filter_matches(payload: Val)
    ensures
        spec_matches(payload, None),
{
}

/// A filter predicate that is not an object matches every payload: a
/// malformed predicate never silently blocks delivery.
pub proof fn lemma_non_object_filter_matches(payload: Val, f: Val)
    requires
        !(f is Obj),
    ensures
        spec_matches(payload, Some(f)),
{
}

/// A filter predicate whose every key is carried by the payload with exactly
/// the expected value matches the payload.
pub proof fn lemma_subset_filter_matches(payload: Val, entries: Seq<(Seq<char>, Val)>)
    requires
        forall|i: int|
            0 <= i < entries.len() ==> get_field(payload, (#[trigger] entries[i]).0) == Some(
                entries[i].1,
            ),
    ensures
        spec_matches(payload, Some(Val::Obj(entries))),
{
}

/// A filter predicate with a key the payload lacks, or whose value at some
/// key differs from the expected one, rejects the payload.
pub proof fn lemma_mismatched_filter_rejects(payload: Val, entries: Seq<(Seq<char>, Val)>, i: int)
    requires
        0 <= i < entries.len(),
        get_field(payload, entries[i].0) != Some(entries[i].1),
    ensures
        !spec_matches(payload, Some(Val::Obj(entries))),
{
}

/// A subscription that is not selected — inactive, not subscribed to the
/// kind, or rejected by its filter — contributes nothing to the plan: the
/// plan is the same as if the subscription were not registered at all.
pub proof fn lemma_unselected_ignored(
    subs: Seq<SubscriptionV>,
    k: EventKind,
    payload: Val,
    j: int,
)
    requires
        0 <= j < subs.len(),
        !spec_selected(subs[j], k, payload),
    ensures
        spec_plan(subs, k, payload) == spec_plan(subs.remove(j), k, payload),
    decreases subs.len(),
{
    if j == subs.len() - 1 {
        assert(subs.remove(j) =~= subs.drop_last());
    } else {
        lemma_unselected_ignored(subs.drop_last(), k, payload, j);
        assert(subs.remove(j).drop_last() =~= subs.drop_last().remove(j));
        assert(subs.remove(j).last() == subs.last());
    }
}

/// An inactive subscription never receives an event, whatever its kind list
/// and filter say.
pub proof fn lemma_inactive_ignored(subs: Seq<SubscriptionV>, k: EventKind, payload: Val, j: int)
    requires
        0 <= j < subs.len(),
        !subs[j].is_active,
    ensures
        spec_plan(subs, k, payload) == spec_plan(subs.remove(j), k, payload),
{
    lemma_unselected_ignored(subs, k, payload, j);
}

/// A subscription whose subscribed-kind list does not name the event's kind
/// never receives the event.
pub proof fn lemma_nonmember_ignored(subs: Seq<SubscriptionV>, k: EventKind, payload: Val, j: int)
    requires
        0 <= j < subs.len(),
        !crate::engine::spec_is_candidate(subs[j], k),
    ensures
        spec_plan(subs, k, payload) == spec_plan(subs.remove(j), k, payload),
{
    lemma_unselected_ignored(subs, k, payload, j);
}

/// The dispatch invariant: the plan hands an event to a subscription exactly
/// when the subscription is active, the event's kind is a member of its
/// subscribed-kind list, and its filter accepts the payload — one request per
/// selected subscription, in registration order, and no other.
pub proof fn lemma_plan_is_selection(subs: Seq<SubscriptionV>, k: EventKind, payload: Val)
    ensures
        spec_plan(subs, k, payload) == subs.filter(
            |s: SubscriptionV| spec_selected(s, k, payload),
        ).map_values(|s: SubscriptionV| HandoffRequestV { subscription_id: s.id, kind: k, payload }),
    decreases subs.len(),
{
    broadcast use group_seq_properties;

    reveal(Seq::filter);
    let pred = |s: SubscriptionV| spec_selected(s, k, payload);
    let to_req = |s: SubscriptionV| HandoffRequestV { subscription_id: s.id, kind: k, payload };
    if subs.len() == 0 {
        assert(spec_plan(subs, k, payload) =~= subs.filter(pred).map_values(to_req));
    } else {
        lemma_plan_is_selection(subs.drop_last(), k, payload);
        let rest = subs.drop_last().filter(pred);
        if pred(subs.last()) {
            assert(rest.push(subs.last()).map_values(to_req) =~= rest.map_values(to_req).push(
                to_req(subs.last()),
            ));
        }
        assert(spec_plan(subs, k, payload) =~= subs.filter(pred).map_values(to_req));
    }
}

/// Handoff outcomes are isolated: where one request's handoff failed and
/// another's succeeded, each dispatch result reports its own outcome — the
/// failure is not observable in the other result, nor does it suppress it.
pub proof fn lemma_handoff_isolation(
    requests: Seq<HandoffRequestV>,
    outcomes: Seq<HandoffOutcomeV>,
    a: int,
    b: int,
)
    requires
        requests.len() == outcomes.len(),
        0 <= a < requests.len(),
        0 <= b < requests.len(),
        a != b,
        outcomes[a] is Failed,
        outcomes[b] is Delivered,
    ensures
        spec_results(requests, outcomes).len() == requests.len(),
        spec_results(requests, outcomes)[a].outcome is Failed,
        spec_results(requests, outcomes)[b].outcome is Delivered,
        spec_results(requests, outcomes)[b].subscription_id == requests[b].subscription_id,
{
}

/// The engine deduplicates nothing: the plan is a function of the event's
/// kind, its payload and the subscription list alone, so dispatching the same
/// event twice against the same subscriptions plans the same handoffs twice.
/// Whatever outcomes the first dispatch recorded, the second dispatch yields
/// a full, independent result sequence: one result per selected subscription,
/// none suppressed.
pub proof fn lemma_no_deduplication(
    subs: Seq<SubscriptionV>,
    k: EventKind,
    payload: Val,
    first_outcomes: Seq<HandoffOutcomeV>,
    second_outcomes: Seq<HandoffOutcomeV>,
)
    ensures
        spec_results(spec_plan(subs, k, payload), first_outcomes).len() == spec_plan(
            subs,
            k,
            payload,
        ).len(),
        spec_results(spec_plan(subs, k, payload), second_outcomes).len() == spec_plan(
            subs,
            k,
            payload,
        ).len(),
{
}

} // verus!
