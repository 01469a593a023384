//! Typed domain events and their canonical payloads.
//!
//! An event is a closed tagged union keyed by `EventKind`; each variant
//! carries a structured, semantically typed payload. The catalog function
//! `payload` serializes a variant into the structured value handed to the
//! filter evaluator and the delivery subsystem.

#![verifier::loop_isolation(false)]

use vstd::prelude::*;
use vstd::string::StringExecFns;
use crate::kinds::EventKind;
use crate::value::{lemma_arr_view, lemma_obj_view, Val, Value};

verus! {

broadcast use vstd::std_specs::vec::group_vec_axioms, vstd::seq::group_seq_axioms;

/// A corridor's health degraded: prior and new metrics snapshots with a
/// severity label and human-readable change descriptions.
pub struct CorridorHealthDegradedEvent {
    pub corridor_key: String,
    pub old_metrics: Value,
    pub new_metrics: Value,
    pub severity: String,
    pub changes: Vec<String>,
}

/// An anchor's operational status changed.
pub struct AnchorStatusChangedEvent {
    pub anchor_id: String,
    pub name: String,
    pub old_status: String,
    pub new_status: String,
    pub reliability_score: i64,
    pub failed_txn_count: i64,
}

/// A payment was created.
pub struct PaymentCreatedEvent {
    pub payment_id: String,
    pub source: String,
    pub destination: String,
    pub asset_code: String,
    pub asset_issuer: String,
    pub amount: i64,
    pub timestamp: String,
}

/// A corridor's liquidity depth dropped below a threshold.
pub struct CorridorLiquidityDroppedEvent {
    pub corridor_key: String,
    pub liquidity_depth_usd: i64,
    pub threshold: i64,
    pub liquidity_trend: String,
    pub severity: String,
}

/// A domain event: one variant per catalog entry.
pub enum Event {
    CorridorHealthDegraded(CorridorHealthDegradedEvent),
    AnchorStatusChanged(AnchorStatusChangedEvent),
    PaymentCreated(PaymentCreatedEvent),
    CorridorLiquidityDropped(CorridorLiquidityDroppedEvent),
}

/// The kind of an event.
pub open spec fn spec_event_kind(e: Event) -> EventKind {
    match e {
        Event::CorridorHealthDegraded(_) => EventKind::CorridorHealthDegraded,
        Event::AnchorStatusChanged(_) => EventKind::AnchorStatusChanged,
        Event::PaymentCreated(_) => EventKind::PaymentCreated,
        Event::CorridorLiquidityDropped(_) => EventKind::CorridorLiquidityDropped,
    }
}

/// The canonical payload of an event: the structured value that filters are
/// evaluated against and that the delivery subsystem receives.
pub open spec fn spec_payload(e: Event) -> Val {
    match e {
        Event::CorridorHealthDegraded(ev) => Val::Obj(
            seq![
                ("corridor_key"@, Val::Str(ev.corridor_key@)),
                ("old_metrics"@, ev.old_metrics@),
                ("new_metrics"@, ev.new_metrics@),
                ("severity"@, Val::Str(ev.severity@)),
                ("changes"@, Val::Arr(Seq::new(ev.changes@.len(), |i: int| Val::Str(ev.changes@[i]@)))),
            ],
        ),
        Event::AnchorStatusChanged(ev) => Val::Obj(
            seq![
                ("anchor_id"@, Val::Str(ev.anchor_id@)),
                ("name"@, Val::Str(ev.name@)),
                ("old_status"@, Val::Str(ev.old_status@)),
                ("new_status"@, Val::Str(ev.new_status@)),
                ("reliability_score"@, Val::Int(ev.reliability_score as int)),
                ("failed_txn_count"@, Val::Int(ev.failed_txn_count as int)),
            ],
        ),
        Event::PaymentCreated(ev) => Val::Obj(
            seq![
                ("payment_id"@, Val::Str(ev.payment_id@)),
                ("source"@, Val::Str(ev.source@)),
                ("destination"@, Val::Str(ev.destination@)),
                ("asset_code"@, Val::Str(ev.asset_code@)),
                ("asset_issuer"@, Val::Str(ev.asset_issuer@)),
                ("amount"@, Val::Int(ev.amount as int)),
                ("timestamp"@, Val::Str(ev.timestamp@)),
            ],
        ),
        Event::CorridorLiquidityDropped(ev) => Val::Obj(
            seq![
                ("corridor_key"@, Val::Str(ev.corridor_key@)),
                ("liquidity_depth_usd"@, Val::Int(ev.liquidity_depth_usd as int)),
                ("threshold"@, Val::Int(ev.threshold as int)),
                ("liquidity_trend"@, Val::Str(ev.liquidity_trend@)),
                ("severity"@, Val::Str(ev.severity@)),
            ],
        ),
    }
}

impl Event {
    /// The kind of this event.
    pub fn kind(&self) -> (k: EventKind)
        ensures
            k == spec_event_kind(*self),
    {
        match self {
            Event::CorridorHealthDegraded(_) => EventKind::CorridorHealthDegraded,
            Event::AnchorStatusChanged(_) => EventKind::AnchorStatusChanged,
            Event::PaymentCreated(_) => EventKind::PaymentCreated,
            Event::CorridorLiquidityDropped(_) => EventKind::CorridorLiquidityDropped,
        }
    }

    /// The canonical payload of this event.
    pub fn payload(&self) -> (p: Value)
        ensures
            p@ == spec_payload(*self),
    {
        match self {
            Event::CorridorHealthDegraded(ev) => {
                let mut changes: Vec<Value> = Vec::new();
                let mut i: usize = 0;
                while i < ev.changes.len()
                    invariant
                        i <= ev.changes@.len(),
                        changes@.len() == i,
                        forall|j: int| 0 <= j < i ==> changes@[j]@ == Val::Str(ev.changes@[j]@),
                    decreases ev.changes@.len() - i,
                {
                    changes.push(Value::Str(ev.changes[i].clone()));
                    i = i + 1;
                }
                let changes_value = Value::Arr(changes);
                proof {
                    lemma_arr_view(&changes_value);
                    assert(changes_value@->Arr_0 =~= Seq::new(
                        ev.changes@.len(),
                        |i: int| Val::Str(ev.changes@[i]@),
                    ));
                }
                let mut entries: Vec<(String, Value)> = Vec::new();
                entries.push((String::from_str("corridor_key"), Value::Str(ev.corridor_key.clone())));
                entries.push((String::from_str("old_metrics"), ev.old_metrics.duplicate()));
                entries.push((String::from_str("new_metrics"), ev.new_metrics.duplicate()));
                entries.push((String::from_str("severity"), Value::Str(ev.severity.clone())));
                entries.push((String::from_str("changes"), changes_value));
                let p = Value::Obj(entries);
                proof {
                    lemma_obj_view(&p);
                    assert(p@->Obj_0 =~= spec_payload(*self)->Obj_0);
                }
                p
            },
            Event::AnchorStatusChanged(ev) => {
                let mut entries: Vec<(String, Value)> = Vec::new();
                entries.push((String::from_str("anchor_id"), Value::Str(ev.anchor_id.clone())));
                entries.push((String::from_str("name"), Value::Str(ev.name.clone())));
                entries.push((String::from_str("old_status"), Value::Str(ev.old_status.clone())));
                entries.push((String::from_str("new_status"), Value::Str(ev.new_status.clone())));
                entries.push((String::from_str("reliability_score"), Value::Int(ev.reliability_score)));
                entries.push((String::from_str("failed_txn_count"), Value::Int(ev.failed_txn_count)));
                let p = Value::Obj(entries);
                proof {
                    lemma_obj_view(&p);
                    assert(p@->Obj_0 =~= spec_payload(*self)->Obj_0);
                }
                p
            },
            Event::PaymentCreated(ev) => {
                let mut entries: Vec<(String, Value)> = Vec::new();
                entries.push((String::from_str("payment_id"), Value::Str(ev.payment_id.clone())));
                entries.push((String::from_str("source"), Value::Str(ev.source.clone())));
                entries.push((String::from_str("destination"), Value::Str(ev.destination.clone())));
                entries.push((String::from_str("asset_code"), Value::Str(ev.asset_code.clone())));
                entries.push((String::from_str("asset_issuer"), Value::Str(ev.asset_issuer.clone())));
                entries.push((String::from_str("amount"), Value::Int(ev.amount)));
                entries.push((String::from_str("timestamp"), Value::Str(ev.timestamp.clone())));
                let p = Value::Obj(entries);
                proof {
                    lemma_obj_view(&p);
                    assert(p@->Obj_0 =~= spec_payload(*self)->Obj_0);
                }
                p
            },
            Event::CorridorLiquidityDropped(ev) => {
                let mut entries: Vec<(String, Value)> = Vec::new();
                entries.push((String::from_str("corridor_key"), Value::Str(ev.corridor_key.clone())));
                entries.push((String::from_str("liquidity_depth_usd"), Value::Int(ev.liquidity_depth_usd)));
                entries.push((String::from_str("threshold"), Value::Int(ev.threshold)));
                entries.push((String::from_str("liquidity_trend"), Value::Str(ev.liquidity_trend.clone())));
                entries.push((String::from_str("severity"), Value::Str(ev.severity.clone())));
                let p = Value::Obj(entries);
                proof {
                    lemma_obj_view(&p);
                    assert(p@->Obj_0 =~= spec_payload(*self)->Obj_0);
                }
                p
            },
        }
    }
}

} // verus!
