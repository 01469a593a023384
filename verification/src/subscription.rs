//! Registered webhook subscriptions, as the dispatch core reads them.
//!
//! A subscription is created and persisted elsewhere; the dispatch core only
//! reads it: which event kinds it wants (a delimiter-separated identifier
//! list), its optional filter predicate, and whether it is active. The
//! delivery target and the secret material are opaque here.

#![verifier::loop_isolation(false)]

use vstd::prelude::*;
use crate::filter::opt_model;
use crate::value::{Val, Value};

verus! {

/// Mathematical model of a subscription.
pub struct SubscriptionV {
    pub id: Seq<char>,
    pub user_id: Seq<char>,
    pub url: Seq<char>,
    pub event_types: Seq<char>,
    pub filters: Option<Val>,
    pub secret: Seq<char>,
    pub is_active: bool,
    pub created_at: int,
    pub last_fired_at: Option<int>,
}

/// One registered webhook subscription.
pub struct Subscription {
    /// Identifier of the subscription.
    pub id: String,
    /// Owning principal.
    pub user_id: String,
    /// Delivery target; opaque to the dispatch core.
    pub url: String,
    /// Delimiter-separated list of subscribed event-kind identifiers.
    pub event_types: String,
    /// Optional filter predicate; `None` means "match all".
    pub filters: Option<Value>,
    /// Secret material for the delivery subsystem; unused by the dispatch core.
    pub secret: String,
    /// Inactive subscriptions never receive events.
    pub is_active: bool,
    /// When the subscription was created (seconds since the epoch).
    pub created_at: i64,
    /// When an event was last dispatched for it, if ever.
    pub last_fired_at: Option<i64>,
}

impl View for Subscription {
    type V = SubscriptionV;

    open spec fn view(&self) -> SubscriptionV {
        SubscriptionV {
            id: self.id@,
            user_id: self.user_id@,
            url: self.url@,
            event_types: self.event_types@,
            filters: opt_model(self.filters),
            secret: self.secret@,
            is_active: self.is_active,
            created_at: self.created_at as int,
            last_fired_at: match self.last_fired_at {
                Some(t) => Some(t as int),
                None => None,
            },
        }
    }
}

impl Subscription {
    /// A fresh subscription with the same model.
    pub fn duplicate(&self) -> (r: Subscription)
        ensures
            r@ == self@,
    {
        Subscription {
            id: self.id.clone(),
            user_id: self.user_id.clone(),
            url: self.url.clone(),
            event_types: self.event_types.clone(),
            filters: match &self.filters {
                Some(f) => Some(f.duplicate()),
                None => None,
            },
            secret: self.secret.clone(),
            is_active: self.is_active,
            created_at: self.created_at,
            last_fired_at: self.last_fired_at,
        }
    }
}

} // verus!
