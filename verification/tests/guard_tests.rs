use tenauth::errors::DomainError;
use tenauth::guard::AuthDecision;
use tenauth::guard::authorize_request_at;
use tenauth::guard::is_public_path;
use tenauth::guard::parse_bearer;
use tenauth::guard::require_auth;
use tenauth::token::JwtService;

fn issue(service: &JwtService, now: i64) -> String {
    service
        .generate_access_token_at(
            "user-1".to_string(),
            "tenant-1".to_string(),
            "u@example.test".to_string(),
            vec![],
            vec![],
            now,
        )
        .unwrap()
}

#[test]
fn public_paths_match_the_fixed_allow_list() {
    assert!(is_public_path("/api/v1/auth/login"));
    assert!(is_public_path("/api/v1/auth"));
    assert!(is_public_path("/docs"));
    assert!(is_public_path("/docs/openapi.json"));
    assert!(is_public_path("/health"));
    assert!(!is_public_path("/healthz"));
    assert!(!is_public_path("/api/v1/crm/companies"));
    assert!(!is_public_path("/"));
}

#[test]
fn bearer_parsing_is_case_insensitive_and_trims() {
    assert_eq!(parse_bearer("Bearer abc.def.ghi"), Some("abc.def.ghi"));
    assert_eq!(parse_bearer("bearer abc"), Some("abc"));
    assert_eq!(parse_bearer("BEARER   abc  "), Some("abc"));
    assert_eq!(parse_bearer("Basic abc"), None);
    assert_eq!(parse_bearer("Bearer"), None);
    assert_eq!(parse_bearer(""), None);
}

#[test]
fn protected_route_without_token_is_unauthorized() {
    let service = JwtService::new("guard-secret");
    let decision = authorize_request_at(&service, "/api/v1/crm/companies", None, 1_700_000_000);
    assert!(matches!(decision, AuthDecision::Unauthorized));
}

#[test]
fn public_route_without_token_proceeds_unauthenticated() {
    let service = JwtService::new("guard-secret");
    let decision = authorize_request_at(&service, "/health", None, 1_700_000_000);
    match decision {
        AuthDecision::Proceed(ctx) => assert!(ctx.is_none()),
        AuthDecision::Unauthorized => panic!("health must be public"),
    }
}

#[test]
fn valid_token_attaches_the_security_context() {
    let service = JwtService::new("guard-secret");
    let now: i64 = 1_700_000_000;
    let header = format!("Bearer {}", issue(&service, now));
    let decision =
        authorize_request_at(&service, "/api/v1/crm/companies", Some(&header), now + 1);
    match decision {
        AuthDecision::Proceed(Some(user)) => {
            assert_eq!(user.user_id, "user-1");
            assert_eq!(user.tenant_id, "tenant-1");
            assert_eq!(user.email, "u@example.test");
        }
        other => panic!("expected an authenticated context, got {:?}", other),
    }
}

#[test]
fn bad_token_on_protected_route_short_circuits() {
    let service = JwtService::new("guard-secret");
    let now: i64 = 1_700_000_000;
    let decision = authorize_request_at(
        &service,
        "/api/v1/crm/companies",
        Some("Bearer garbage"),
        now,
    );
    assert!(matches!(decision, AuthDecision::Unauthorized));

    // The same bad token on a public route is ignored.
    let decision = authorize_request_at(&service, "/docs", Some("Bearer garbage"), now);
    assert!(matches!(decision, AuthDecision::Proceed(None)));
}

#[test]
fn expired_token_on_protected_route_short_circuits() {
    let service = JwtService::new("guard-secret");
    let now: i64 = 1_700_000_000;
    let header = format!("Bearer {}", issue(&service, now));
    let decision =
        authorize_request_at(&service, "/api/v1/crm/companies", Some(&header), now + 901);
    assert!(matches!(decision, AuthDecision::Unauthorized));
}

#[test]
fn require_auth_distinguishes_expired_from_invalid() {
    let service = JwtService::new("guard-secret");
    let now: i64 = 1_700_000_000;
    let header = format!("Bearer {}", issue(&service, now));

    let user = require_auth(&service, Some(&header), now + 1).unwrap();
    assert_eq!(user.user_id, "user-1");

    match require_auth(&service, Some(&header), now + 901) {
        Err(DomainError::TokenExpired) => {}
        r => panic!("expected TokenExpired, got {:?}", r),
    }
    match require_auth(&service, Some("Bearer junk"), now) {
        Err(DomainError::TokenInvalid) => {}
        r => panic!("expected TokenInvalid, got {:?}", r),
    }
    match require_auth(&service, None, now) {
        Err(DomainError::TokenInvalid) => {}
        r => panic!("expected TokenInvalid, got {:?}", r),
    }
}
