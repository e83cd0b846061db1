use tenauth::errors::DomainError;
use tenauth::token::JwtService;
use tenauth::token::REFRESH_TOKEN_LENGTH;

#[test]
fn test_jwt_generation_and_validation() {
    let jwt_service = JwtService::new("test_secret");
    let user_id = uuid::Uuid::new_v4().to_string();
    let tenant_id = uuid::Uuid::new_v4().to_string();
    let email = "test@example.com".to_string();
    let roles = vec!["admin".to_string()];
    let permissions = vec!["users:read".to_string(), "users:write".to_string()];

    let token = jwt_service
        .generate_access_token(
            user_id.clone(),
            tenant_id.clone(),
            email.clone(),
            roles.clone(),
            permissions.clone(),
        )
        .unwrap();

    let claims = jwt_service.validate_token(&token).unwrap();

    assert_eq!(claims.sub, user_id);
    assert_eq!(claims.tenant_id, tenant_id);
    assert_eq!(claims.email, email);
    assert_eq!(claims.roles, roles);
    assert_eq!(claims.permissions, permissions);
}

#[test]
fn test_refresh_token_generation() {
    let jwt_service = JwtService::new("test_secret");
    let token = jwt_service.generate_refresh_token();

    assert_eq!(token.len(), 32);
    assert!(token.chars().all(|c| c.is_alphanumeric()));
}

#[test]
fn round_trip_before_expiry_returns_the_inputs() {
    let service = JwtService::new("round-trip-secret");
    let now: i64 = 1_700_000_000;
    let token = service
        .generate_access_token_at(
            "user-1".to_string(),
            "tenant-1".to_string(),
            "u@example.test".to_string(),
            vec!["owner".to_string()],
            vec!["crm:read".to_string()],
            now,
        )
        .unwrap();
    let claims = service.validate_token_at(&token, now + 1).unwrap();
    assert_eq!(claims.sub, "user-1");
    assert_eq!(claims.tenant_id, "tenant-1");
    assert_eq!(claims.email, "u@example.test");
    assert_eq!(claims.roles, vec!["owner".to_string()]);
    assert_eq!(claims.permissions, vec!["crm:read".to_string()]);
    assert_eq!(claims.iat, now);
    assert_eq!(claims.exp, now + 900);
}

#[test]
fn expiry_boundary_one_second_each_side() {
    let service = JwtService::new("boundary-secret");
    let now: i64 = 1_700_000_000;
    let token = service
        .generate_access_token_at(
            "user-1".to_string(),
            "tenant-1".to_string(),
            "u@example.test".to_string(),
            vec![],
            vec![],
            now,
        )
        .unwrap();
    // The token expires at now + 900. One second before that instant it is
    // accepted; from that instant on it is rejected as expired.
    assert!(service.validate_token_at(&token, now + 899).is_ok());
    match service.validate_token_at(&token, now + 900) {
        Err(DomainError::TokenExpired) => {}
        other => panic!("expected TokenExpired, got {:?}", other),
    }
    match service.validate_token_at(&token, now + 901) {
        Err(DomainError::TokenExpired) => {}
        other => panic!("expected TokenExpired, got {:?}", other),
    }
}

#[test]
fn wrong_secret_and_garbage_are_invalid_not_expired() {
    let issuer = JwtService::new("secret-one");
    let other = JwtService::new("secret-two");
    let now: i64 = 1_700_000_000;
    let token = issuer
        .generate_access_token_at(
            "user-1".to_string(),
            "tenant-1".to_string(),
            "u@example.test".to_string(),
            vec![],
            vec![],
            now,
        )
        .unwrap();
    match other.validate_token_at(&token, now) {
        Err(DomainError::TokenInvalid) => {}
        r => panic!("expected TokenInvalid, got {:?}", r),
    }
    match issuer.validate_token_at("not-a-token", now) {
        Err(DomainError::TokenInvalid) => {}
        r => panic!("expected TokenInvalid, got {:?}", r),
    }
}

#[test]
fn refresh_tokens_do_not_collide_over_a_large_sample() {
    let service = JwtService::new("collision-secret");
    let mut seen = std::collections::HashSet::new();
    for _ in 0..2000 {
        let t = service.generate_refresh_token();
        assert_eq!(t.len(), REFRESH_TOKEN_LENGTH);
        assert!(seen.insert(t), "two refresh tokens collided");
    }
}

#[test]
fn configured_lifetimes_are_exposed() {
    let service = JwtService::new("ttl-secret");
    assert_eq!(service.access_ttl_seconds(), 900);
    assert_eq!(service.refresh_ttl_seconds(), 604_800);
    let now: i64 = 10_000;
    assert_eq!(service.access_token_expires_from(now), 10_900);
    assert_eq!(service.refresh_token_expires_from(now), 614_800);
}

#[test]
fn issuance_and_validation_work_for_pre_epoch_clocks() {
    // A clock before 1970 yields negative issue and expiry times; the round
    // trip must still hold, and the expiry rule must still apply.
    let service = JwtService::new("epoch-secret");
    let now: i64 = -10_000;
    let token = service
        .generate_access_token_at(
            "user-1".to_string(),
            "tenant-1".to_string(),
            "u@example.test".to_string(),
            vec![],
            vec![],
            now,
        )
        .unwrap();
    let claims = service.validate_token_at(&token, now + 1).unwrap();
    assert_eq!(claims.iat, -10_000);
    assert_eq!(claims.exp, -9_100);
    assert!(matches!(
        service.validate_token_at(&token, -9_100),
        Err(DomainError::TokenExpired)
    ));
}
