use webhook_dispatch::error::{ApiError, DomainError, StoreErrorClass};
use webhook_dispatch::value::Value;

#[test]
fn test_not_found_error() {
    let error = ApiError::not_found("CORRIDOR_NOT_FOUND", "Corridor not found");
    assert_eq!(error.status_code(), 404);
}

#[test]
fn test_bad_request_error() {
    let error = ApiError::bad_request("INVALID_INPUT", "Invalid input provided");
    assert_eq!(error.status_code(), 400);
}

#[test]
fn test_internal_error() {
    let error = ApiError::internal("INTERNAL_ERROR", "Something went wrong");
    assert_eq!(error.status_code(), 500);
}

#[test]
fn test_unauthorized_error() {
    let error = ApiError::unauthorized("INVALID_TOKEN", "Invalid authentication token");
    assert_eq!(error.status_code(), 401);
}

#[test]
fn test_error_with_details() {
    let details = vec![(
        "corridor_id".to_string(),
        Value::Str("USDC-XLM".to_string()),
    )];

    let error =
        ApiError::not_found("CORRIDOR_NOT_FOUND", "Corridor not found").with_details(details);

    match error {
        ApiError::NotFound {
            details: Some(d), ..
        } => {
            assert_eq!(d.len(), 1);
            assert_eq!(d[0].0, "corridor_id");
            assert!(d[0].1.deep_eq(&Value::Str("USDC-XLM".to_string())));
        }
        _ => panic!("Expected NotFound error with details"),
    }
}

#[test]
fn test_error_response_serialization() {
    let details = vec![(
        "corridor_id".to_string(),
        Value::Str("USDC-XLM".to_string()),
    )];

    let error = ApiError::not_found_with_details(
        "CORRIDOR_NOT_FOUND",
        "Corridor with ID 'USDC-XLM' not found",
        details,
    );

    let response =
        error.to_error_response(Some("550e8400-e29b-41d4-a716-446655440000".to_string()));

    assert_eq!(response.error.code, "CORRIDOR_NOT_FOUND");
    assert_eq!(
        response.error.message,
        "Corridor with ID 'USDC-XLM' not found"
    );
    assert_eq!(
        response.error.request_id,
        Some("550e8400-e29b-41d4-a716-446655440000".to_string())
    );
    assert!(response.error.details.is_some());
}

#[test]
fn test_domain_error_messages() {
    let e = DomainError::CorridorNotFound("USDC-XLM".to_string());
    assert_eq!(e.message(), "Corridor not found: USDC-XLM");

    let e = DomainError::AnchorNotFound("anchor-7".to_string());
    assert_eq!(e.message(), "Anchor not found: anchor-7");

    let e = DomainError::InvalidTimeRange {
        start: "2024-01-02".to_string(),
        end: "2024-01-01".to_string(),
    };
    assert_eq!(e.message(), "Invalid time range: 2024-01-02 to 2024-01-01");

    let e = DomainError::InvalidAsset("??".to_string());
    assert_eq!(e.message(), "Invalid asset format: ??");

    let e = DomainError::InvalidConfiguration("empty".to_string());
    assert_eq!(e.message(), "Invalid configuration: empty");

    let e = DomainError::UnsupportedCurrency("DOGE".to_string());
    assert_eq!(e.message(), "Unsupported currency or asset: DOGE");

    let e = DomainError::CalculationError("div by zero".to_string());
    assert_eq!(e.message(), "Calculation error: div by zero");
}

#[test]
fn test_from_domain_error_codes() {
    let e = ApiError::from_domain(DomainError::CorridorNotFound("USDC-XLM".to_string()));
    assert_eq!(e.status_code(), 404);
    match e {
        ApiError::NotFound { code, message, .. } => {
            assert_eq!(code, "CORRIDOR_NOT_FOUND");
            assert_eq!(message, "Corridor not found: USDC-XLM");
        }
        _ => panic!("Expected NotFound"),
    }

    let e = ApiError::from_domain(DomainError::AnchorNotFound("a1".to_string()));
    match e {
        ApiError::NotFound { code, .. } => assert_eq!(code, "ANCHOR_NOT_FOUND"),
        _ => panic!("Expected NotFound"),
    }

    let e = ApiError::from_domain(DomainError::InvalidTimeRange {
        start: "b".to_string(),
        end: "a".to_string(),
    });
    match e {
        ApiError::BadRequest { code, .. } => assert_eq!(code, "INVALID_TIME_RANGE"),
        _ => panic!("Expected BadRequest"),
    }

    let e = ApiError::from_domain(DomainError::UnsupportedCurrency("DOGE".to_string()));
    match e {
        ApiError::BadRequest { code, message, .. } => {
            assert_eq!(code, "DOMAIN_VALIDATION_ERROR");
            assert_eq!(message, "DOGE");
        }
        _ => panic!("Expected BadRequest"),
    }
}

#[test]
fn test_from_store_error() {
    let e = ApiError::from_store_error(StoreErrorClass::RowNotFound, "no rows".to_string());
    match e {
        ApiError::InternalError {
            code,
            message,
            source,
            ..
        } => {
            assert_eq!(code, "NOT_FOUND");
            assert_eq!(message, "The requested resource was not found");
            assert_eq!(source, Some("no rows".to_string()));
        }
        _ => panic!("Expected InternalError"),
    }

    let e = ApiError::from_store_error(
        StoreErrorClass::Database("locked".to_string()),
        "db locked".to_string(),
    );
    match e {
        ApiError::InternalError { code, message, .. } => {
            assert_eq!(code, "DATABASE_ERROR");
            assert_eq!(message, "Database error: locked");
        }
        _ => panic!("Expected InternalError"),
    }

    let e = ApiError::from_store_error(StoreErrorClass::Other, "boom".to_string());
    match e {
        ApiError::InternalError { code, message, .. } => {
            assert_eq!(code, "INTERNAL_ERROR");
            assert_eq!(message, "An internal error occurred");
        }
        _ => panic!("Expected InternalError"),
    }
}

#[test]
fn test_from_internal_cause() {
    let e = ApiError::from_internal_cause("Test error".to_string());
    match e {
        ApiError::InternalError { code, source, .. } => {
            assert_eq!(code, "INTERNAL_ERROR");
            assert_eq!(source, Some("Test error".to_string()));
        }
        _ => panic!("Expected InternalError"),
    }
}

#[test]
fn test_to_error_response_keeps_details_and_omits_stack_trace() {
    let details = vec![("k".to_string(), Value::Int(7))];
    let error = ApiError::internal("INTERNAL_ERROR", "boom").with_details(details);
    let response = error.to_error_response(None);
    assert_eq!(response.error.code, "INTERNAL_ERROR");
    assert_eq!(response.error.message, "boom");
    assert!(response.error.request_id.is_none());
    assert!(response.error.stack_trace.is_none());
    let d = response.error.details.expect("details kept");
    assert_eq!(d.len(), 1);
    assert_eq!(d[0].0, "k");
    assert!(d[0].1.deep_eq(&Value::Int(7)));
}
