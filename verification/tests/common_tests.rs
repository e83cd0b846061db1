use tenauth::common::ApiResponse;
use tenauth::common::PaginationParams;
use tenauth::common::SortOrder;
use tenauth::common::pagination_meta;
use tenauth::common::parse_sort_order;
use tenauth::common::resolve_paging;
use tenauth::config::AppConfig;
use tenauth::domain::list_query_within_bounds;
use tenauth::errors::DomainError;
use tenauth::events::DomainEvent;

#[test]
fn paging_defaults_and_clamps() {
    assert_eq!(resolve_paging(None, None), (1, 20, 0));
    assert_eq!(resolve_paging(Some(0), Some(0)), (1, 1, 0));
    assert_eq!(resolve_paging(Some(3), Some(250)), (3, 100, 200));
    assert_eq!(resolve_paging(Some(7), Some(25)), (7, 25, 150));
}

#[test]
fn pagination_meta_rounds_up_and_flags_neighbours() {
    let meta = pagination_meta(2, 20, 41);
    assert_eq!(meta.total_pages, 3);
    assert_eq!(meta.total_count, 41);
    assert!(meta.has_next);
    assert!(meta.has_prev);

    let exact = pagination_meta(2, 20, 40);
    assert_eq!(exact.total_pages, 2);
    assert!(!exact.has_next);

    let empty = pagination_meta(1, 20, 0);
    assert_eq!(empty.total_pages, 0);
    assert!(!empty.has_next);
    assert!(!empty.has_prev);
}

#[test]
fn sort_order_parsing_ignores_ascii_case() {
    assert_eq!(parse_sort_order("asc"), Some(SortOrder::Asc));
    assert_eq!(parse_sort_order("ASC"), Some(SortOrder::Asc));
    assert_eq!(parse_sort_order("Desc"), Some(SortOrder::Desc));
    assert_eq!(parse_sort_order("descending"), None);
    assert_eq!(parse_sort_order(""), None);
}

#[test]
fn pagination_params_default_to_first_page_of_twenty() {
    let params = PaginationParams::default();
    assert_eq!(params.page, Some(1));
    assert_eq!(params.per_page, Some(20));
}

#[test]
fn api_response_envelope_shapes() {
    let ok: ApiResponse<u32> = ApiResponse::success(7);
    assert!(ok.success);
    assert_eq!(ok.data, Some(7));
    assert!(ok.message.is_none());

    let err: ApiResponse<u32> = ApiResponse::<u32>::error_typed("boom".to_string());
    assert!(!err.success);
    assert!(err.data.is_none());
    assert_eq!(err.message.as_deref(), Some("boom"));

    let val = ApiResponse::<()>::validation_error(vec!["field".to_string()]);
    assert_eq!(val.message.as_deref(), Some("Validation failed"));
    assert_eq!(val.errors, Some(vec!["field".to_string()]));
}

#[test]
fn list_query_bounds_follow_the_shared_rules() {
    assert!(list_query_within_bounds(None, None, &None));
    assert!(list_query_within_bounds(Some(1), Some(100), &Some("acme".to_string())));
    assert!(!list_query_within_bounds(Some(0), None, &None));
    assert!(!list_query_within_bounds(Some(10_001), None, &None));
    assert!(!list_query_within_bounds(None, Some(101), &None));
    assert!(!list_query_within_bounds(None, None, &Some(String::new())));
    assert!(!list_query_within_bounds(None, None, &Some("x".repeat(101))));
}

#[test]
fn config_validation_names_the_first_missing_value() {
    let complete = AppConfig::with_defaults(
        "postgres://localhost/app".to_string(),
        "redis://localhost".to_string(),
        "SECRET-REDACTED".to_string(),
    );
    assert!(complete.validate().is_ok());

    let missing_db = AppConfig::with_defaults(
        String::new(),
        "redis://localhost".to_string(),
        "SECRET-REDACTED".to_string(),
    );
    match missing_db.validate() {
        Err(DomainError::ValidationFailed { message }) => {
            assert_eq!(message, "DATABASE_URL is required");
        }
        r => panic!("expected a validation failure, got {:?}", r),
    }

    let missing_redis = AppConfig::with_defaults(
        "postgres://localhost/app".to_string(),
        String::new(),
        "SECRET-REDACTED".to_string(),
    );
    match missing_redis.validate() {
        Err(DomainError::ValidationFailed { message }) => {
            assert_eq!(message, "REDIS_URL is required");
        }
        r => panic!("expected a validation failure, got {:?}", r),
    }

    let missing_secret = AppConfig::with_defaults(
        "postgres://localhost/app".to_string(),
        "redis://localhost".to_string(),
        String::new(),
    );
    match missing_secret.validate() {
        Err(DomainError::ValidationFailed { message }) => {
            assert_eq!(message, "JWT_SECRET is required");
        }
        r => panic!("expected a validation failure, got {:?}", r),
    }
}

#[test]
fn config_defaults_match_the_documented_values() {
    let config = AppConfig::with_defaults(
        "postgres://localhost/app".to_string(),
        "redis://localhost".to_string(),
        "SECRET-REDACTED".to_string(),
    );
    assert_eq!(config.server.host, "0.0.0.0");
    assert_eq!(config.server.port, 3000);
    assert_eq!(config.jwt.access_token_duration, 900);
    assert_eq!(config.jwt.refresh_token_duration, 604_800);
    assert_eq!(config.database.max_connections, 10);
    assert_eq!(config.redis.connection_timeout, 5);
    assert_eq!(config.email.smtp_port, 587);
}

#[test]
fn domain_events_have_stable_names() {
    assert_eq!(DomainEvent::UserRegistered.name(), "UserRegistered");
    assert_eq!(DomainEvent::TenantCreated.name(), "TenantCreated");
}

#[test]
fn health_report_reflects_both_probes() {
    let healthy = tenauth::domain::health_report("1.2.3".to_string(), true, true, 100, 160);
    assert_eq!(healthy.status, "healthy");
    assert_eq!(healthy.database, "healthy");
    assert_eq!(healthy.redis, "healthy");
    assert_eq!(healthy.version, "1.2.3");
    assert_eq!(healthy.uptime, 60);

    let degraded = tenauth::domain::health_report("1.2.3".to_string(), true, false, 100, 100);
    assert_eq!(degraded.status, "unhealthy");
    assert_eq!(degraded.database, "healthy");
    assert_eq!(degraded.redis, "unhealthy");
    assert_eq!(degraded.uptime, 0);

    assert_eq!(tenauth::domain::get_uptime(50, 80), 30);
}
