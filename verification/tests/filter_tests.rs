use webhook_dispatch::engine::WebhookEventService;
use webhook_dispatch::value::Value;

fn obj(entries: Vec<(&str, Value)>) -> Value {
    Value::Obj(
        entries
            .into_iter()
            .map(|(k, v)| (k.to_string(), v))
            .collect(),
    )
}

fn s(text: &str) -> Value {
    Value::Str(text.to_string())
}

#[test]
fn test_filter_application() {
    let service = WebhookEventService::new();

    let payload = obj(vec![
        (
            "corridor_key",
            s("USDC:GA5ZSEJYB37JRC5AVCIA5MOP4RHTM335X2KGX3IHOJAPP5RE34K4KZVN->XLM:native"),
        ),
        ("severity", s("warning")),
    ]);

    let filters = obj(vec![("severity", s("warning"))]);

    assert!(service.apply_filters(&payload, &filters));

    let mismatched_filters = obj(vec![("severity", s("critical"))]);

    assert!(!service.apply_filters(&payload, &mismatched_filters));
}

#[test]
fn test_absent_filter_matches_all() {
    let payload = obj(vec![("severity", s("warning"))]);
    assert!(webhook_dispatch::filter::matches(&payload, &None));

    let empty_payload = obj(vec![]);
    assert!(webhook_dispatch::filter::matches(&empty_payload, &None));
}

#[test]
fn test_non_object_filter_matches_all() {
    let payload = obj(vec![("severity", s("warning"))]);
    assert!(webhook_dispatch::filter::matches(&payload, &Some(s("not a mapping"))));
    assert!(webhook_dispatch::filter::matches(&payload, &Some(Value::Null)));
    assert!(webhook_dispatch::filter::matches(&payload, &Some(Value::Int(3))));
    assert!(webhook_dispatch::filter::matches(&payload, &Some(Value::Arr(vec![s("a")]))));
}

#[test]
fn test_empty_object_filter_matches_all() {
    let payload = obj(vec![("severity", s("warning"))]);
    assert!(webhook_dispatch::filter::matches(&payload, &Some(obj(vec![]))));
}

#[test]
fn test_subset_filter_matches() {
    let payload = obj(vec![
        ("asset_code", s("USDC")),
        ("amount", Value::Int(100)),
        ("severity", s("warning")),
    ]);
    let filter = obj(vec![("asset_code", s("USDC")), ("amount", Value::Int(100))]);
    assert!(webhook_dispatch::filter::matches(&payload, &Some(filter)));
}

#[test]
fn test_missing_key_rejects() {
    let payload = obj(vec![("asset_code", s("USDC"))]);
    let filter = obj(vec![("issuer", s("GA5Z"))]);
    assert!(!webhook_dispatch::filter::matches(&payload, &Some(filter)));
}

#[test]
fn test_differing_value_rejects() {
    let payload = obj(vec![("asset_code", s("USDC")), ("amount", Value::Int(100))]);
    let filter = obj(vec![("amount", Value::Int(200))]);
    assert!(!webhook_dispatch::filter::matches(&payload, &Some(filter)));
}

#[test]
fn test_equality_is_deep_and_not_coerced() {
    let payload = obj(vec![
        ("metrics", obj(vec![("success_rate", Value::Int(98))])),
        ("amount", Value::Int(1)),
    ]);

    let equal_nested = obj(vec![(
        "metrics",
        obj(vec![("success_rate", Value::Int(98))]),
    )]);
    assert!(webhook_dispatch::filter::matches(&payload, &Some(equal_nested)));

    let different_nested = obj(vec![(
        "metrics",
        obj(vec![("success_rate", Value::Int(97))]),
    )]);
    assert!(!webhook_dispatch::filter::matches(&payload, &Some(different_nested)));

    // An integer and its textual form are different values.
    let coerced = obj(vec![("amount", s("1"))]);
    assert!(!webhook_dispatch::filter::matches(&payload, &Some(coerced)));
}

#[test]
fn test_filter_against_non_object_payload() {
    // A payload without keys satisfies no keyed predicate.
    let filter = obj(vec![("severity", s("warning"))]);
    assert!(!webhook_dispatch::filter::matches(&s("warning"), &Some(filter)));
}

#[test]
fn test_value_get_and_deep_eq() {
    let payload = obj(vec![
        ("a", Value::Bool(true)),
        ("b", Value::Arr(vec![Value::Int(1), Value::Int(2)])),
    ]);
    assert!(payload.get("a").expect("a present").deep_eq(&Value::Bool(true)));
    assert!(payload
        .get("b")
        .expect("b present")
        .deep_eq(&Value::Arr(vec![Value::Int(1), Value::Int(2)])));
    assert!(payload.get("missing").is_none());

    let copy = payload.duplicate();
    assert!(copy.deep_eq(&payload));
}
