use webhook_dispatch::engine::{
    FetchError, HandoffOutcome, WebhookEventService,
};
use webhook_dispatch::events::{
    AnchorStatusChangedEvent, Event, PaymentCreatedEvent,
};
use webhook_dispatch::kinds::{kind_id, kind_list_contains, EventKind};
use webhook_dispatch::subscription::Subscription;
use webhook_dispatch::value::Value;

fn obj(entries: Vec<(&str, Value)>) -> Value {
    Value::Obj(
        entries
            .into_iter()
            .map(|(k, v)| (k.to_string(), v))
            .collect(),
    )
}

fn s(text: &str) -> Value {
    Value::Str(text.to_string())
}

fn subscription(id: &str, event_types: &str, filters: Option<Value>, is_active: bool) -> Subscription {
    Subscription {
        id: id.to_string(),
        user_id: "user-1".to_string(),
        url: "https://example.invalid/hook".to_string(),
        event_types: event_types.to_string(),
        filters,
        secret: "unused-by-dispatch".to_string(),
        is_active,
        created_at: 1_700_000_000,
        last_fired_at: None,
    }
}

fn payment_event(asset_code: &str, amount: i64) -> Event {
    Event::PaymentCreated(PaymentCreatedEvent {
        payment_id: "pay-1".to_string(),
        source: "GSRC".to_string(),
        destination: "GDST".to_string(),
        asset_code: asset_code.to_string(),
        asset_issuer: "GISS".to_string(),
        amount,
        timestamp: "2024-01-01T00:00:00Z".to_string(),
    })
}

#[test]
fn test_kind_identifiers() {
    assert_eq!(kind_id(EventKind::CorridorHealthDegraded), "CorridorHealthDegraded");
    assert_eq!(kind_id(EventKind::AnchorStatusChanged), "AnchorStatusChanged");
    assert_eq!(kind_id(EventKind::PaymentCreated), "PaymentCreated");
    assert_eq!(kind_id(EventKind::CorridorLiquidityDropped), "CorridorLiquidityDropped");
}

#[test]
fn test_kind_list_membership() {
    let list = "CorridorHealthDegraded, PaymentCreated";
    assert!(kind_list_contains(list, EventKind::CorridorHealthDegraded));
    assert!(kind_list_contains(list, EventKind::PaymentCreated));
    assert!(!kind_list_contains(list, EventKind::AnchorStatusChanged));
    assert!(!kind_list_contains(list, EventKind::CorridorLiquidityDropped));
}

#[test]
fn test_kind_list_trims_whitespace() {
    assert!(kind_list_contains("  PaymentCreated  ", EventKind::PaymentCreated));
    assert!(kind_list_contains("\tPaymentCreated\n,AnchorStatusChanged", EventKind::PaymentCreated));
}

#[test]
fn test_kind_list_ignores_unknown_and_empty_tokens() {
    assert!(kind_list_contains("SomethingElse,,PaymentCreated", EventKind::PaymentCreated));
    assert!(!kind_list_contains("SomethingElse,,", EventKind::PaymentCreated));
    assert!(!kind_list_contains("", EventKind::PaymentCreated));
    // A token only matches the kind it literally names.
    assert!(!kind_list_contains("PaymentCreatedX", EventKind::PaymentCreated));
    assert!(!kind_list_contains("Payment", EventKind::PaymentCreated));
}

#[test]
fn test_payment_payload_shape() {
    let event = payment_event("USDC", 100);
    let payload = event.payload();
    assert!(payload.get("asset_code").expect("key").deep_eq(&s("USDC")));
    assert!(payload.get("amount").expect("key").deep_eq(&Value::Int(100)));
    assert!(payload.get("payment_id").expect("key").deep_eq(&s("pay-1")));
    assert_eq!(event.kind(), EventKind::PaymentCreated);
}

#[test]
fn test_accessor_returns_candidates_regardless_of_active_flag() {
    let service = WebhookEventService::new();
    let subs = vec![
        subscription("sub-1", "PaymentCreated", None, true),
        subscription("sub-2", "PaymentCreated", None, false),
        subscription("sub-3", "AnchorStatusChanged", None, true),
    ];
    let candidates = service.subscriptions_for_kind(&subs, EventKind::PaymentCreated);
    let ids: Vec<&str> = candidates.iter().map(|c| c.id.as_str()).collect();
    assert_eq!(ids, vec!["sub-1", "sub-2"]);
}

#[test]
fn test_dispatch_filter_match_and_mismatch() {
    let service = WebhookEventService::new();
    let filter = obj(vec![("asset_code", s("USDC"))]);

    let subs = vec![subscription("sub-1", "PaymentCreated", Some(filter), true)];
    let requests = service
        .dispatch(&payment_event("USDC", 100), Ok(subs))
        .expect("selection succeeds");
    assert_eq!(requests.len(), 1);
    assert_eq!(requests[0].subscription_id, "sub-1");
    assert_eq!(requests[0].kind, EventKind::PaymentCreated);

    let outcomes = vec![HandoffOutcome::Delivered];
    let results = service.assemble_results(&requests, &outcomes);
    assert_eq!(results.len(), 1);
    assert!(matches!(results[0].outcome, HandoffOutcome::Delivered));

    let filter = obj(vec![("asset_code", s("USDC"))]);
    let subs = vec![subscription("sub-1", "PaymentCreated", Some(filter), true)];
    let requests = service
        .dispatch(&payment_event("XLM", 100), Ok(subs))
        .expect("selection succeeds");
    assert_eq!(requests.len(), 0);
}

#[test]
fn test_inactive_subscription_receives_nothing() {
    let service = WebhookEventService::new();
    let subs = vec![subscription("sub-1", "AnchorStatusChanged", None, false)];
    let event = Event::AnchorStatusChanged(AnchorStatusChangedEvent {
        anchor_id: "anchor-1".to_string(),
        name: "Anchor One".to_string(),
        old_status: "healthy".to_string(),
        new_status: "degraded".to_string(),
        reliability_score: 73,
        failed_txn_count: 4,
    });
    let requests = service.dispatch(&event, Ok(subs)).expect("selection succeeds");
    assert_eq!(requests.len(), 0);
}

#[test]
fn test_dispatch_only_to_subscribed_kinds() {
    let service = WebhookEventService::new();
    let subs = vec![
        subscription("sub-1", "CorridorHealthDegraded, PaymentCreated", None, true),
        subscription("sub-2", "CorridorLiquidityDropped", None, true),
    ];
    let requests = service
        .dispatch(&payment_event("USDC", 5), Ok(subs))
        .expect("selection succeeds");
    assert_eq!(requests.len(), 1);
    assert_eq!(requests[0].subscription_id, "sub-1");
}

#[test]
fn test_fetch_failure_produces_no_results() {
    let service = WebhookEventService::new();
    let fetched: Result<Vec<Subscription>, FetchError> = Err(FetchError {
        message: "connection refused".to_string(),
    });
    let err = service
        .dispatch(&payment_event("USDC", 1), fetched)
        .expect_err("selection failure propagates");
    assert_eq!(err.message, "subscription fetch failed");
    assert_eq!(err.cause, Some("connection refused".to_string()));
}

#[test]
fn test_handoff_failures_are_isolated() {
    let service = WebhookEventService::new();
    let subs = vec![
        subscription("sub-a", "PaymentCreated", None, true),
        subscription("sub-b", "PaymentCreated", None, true),
    ];
    let requests = service
        .dispatch(&payment_event("USDC", 9), Ok(subs))
        .expect("selection succeeds");
    assert_eq!(requests.len(), 2);

    let outcomes = vec![
        HandoffOutcome::Failed("timeout".to_string()),
        HandoffOutcome::Delivered,
    ];
    let results = service.assemble_results(&requests, &outcomes);
    assert_eq!(results.len(), 2);
    assert_eq!(results[0].subscription_id, "sub-a");
    match &results[0].outcome {
        HandoffOutcome::Failed(reason) => assert_eq!(reason, "timeout"),
        HandoffOutcome::Delivered => panic!("first handoff failed"),
    }
    assert_eq!(results[1].subscription_id, "sub-b");
    assert!(matches!(results[1].outcome, HandoffOutcome::Delivered));
}

#[test]
fn test_repeat_dispatch_is_not_deduplicated() {
    let service = WebhookEventService::new();

    let first = service
        .dispatch(
            &payment_event("USDC", 100),
            Ok(vec![subscription("sub-1", "PaymentCreated", None, true)]),
        )
        .expect("selection succeeds");
    let second = service
        .dispatch(
            &payment_event("USDC", 100),
            Ok(vec![subscription("sub-1", "PaymentCreated", None, true)]),
        )
        .expect("selection succeeds");

    assert_eq!(first.len(), 1);
    assert_eq!(second.len(), 1);
    assert_eq!(first[0].subscription_id, second[0].subscription_id);
    assert!(first[0].payload.deep_eq(&second[0].payload));
}
