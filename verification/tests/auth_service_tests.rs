use tenauth::errors::DomainError;
use tenauth::service::AuthAppService;
use tenauth::service::LoginRequest;
use tenauth::service::RegisterTenantRequest;

fn acme_registration() -> RegisterTenantRequest {
    RegisterTenantRequest {
        company_name: "Acme".to_string(),
        slug: "acme".to_string(),
        admin_email: "a@acme.test".to_string(),
        admin_password: "Str0ngP@ss".to_string(),
        admin_first_name: "Ada".to_string(),
        admin_last_name: "Admin".to_string(),
    }
}

fn login_request(email: &str, password: &str) -> LoginRequest {
    LoginRequest {
        email: email.to_string(),
        password: password.to_string(),
        remember_me: None,
    }
}

#[test]
fn register_then_login_then_conflicting_slug() {
    let mut service = AuthAppService::new("scenario-secret");
    let now: i64 = 1_700_000_000;

    assert!(service.register_tenant(&acme_registration()).is_ok());

    let response = service.login(&login_request("a@acme.test", "Str0ngP@ss"), now).unwrap();
    assert!(!response.access_token.is_empty());
    assert_eq!(response.tenant.slug, "acme");
    assert_eq!(response.user.email, "a@acme.test");
    assert_eq!(response.tenant.settings, "{}");
    assert_eq!(response.expires_at, now + 900);
    assert_eq!(response.refresh_token.len(), 32);

    let mut second = acme_registration();
    second.admin_email = "b@acme.test".to_string();
    match service.register_tenant(&second) {
        Err(DomainError::TenantSlugTaken { slug }) => {
            assert_eq!(slug, "acme");
            assert_eq!(
                DomainError::TenantSlugTaken { slug }.http_status_code(),
                409
            );
        }
        other => panic!("expected TenantSlugTaken, got {:?}", other),
    }
}

#[test]
fn duplicate_admin_email_is_a_conflict() {
    let mut service = AuthAppService::new("scenario-secret");
    assert!(service.register_tenant(&acme_registration()).is_ok());

    let mut other = acme_registration();
    other.company_name = "Other Co".to_string();
    other.slug = "other".to_string();
    match service.register_tenant(&other) {
        Err(DomainError::UserAlreadyExists { email }) => {
            assert_eq!(email, "a@acme.test");
        }
        r => panic!("expected UserAlreadyExists, got {:?}", r),
    }
}

#[test]
fn wrong_password_and_unknown_email_yield_the_same_error() {
    let mut service = AuthAppService::new("scenario-secret");
    let now: i64 = 1_700_000_000;
    assert!(service.register_tenant(&acme_registration()).is_ok());

    let wrong_password = service.login(&login_request("a@acme.test", "WrongP@ss1"), now);
    let unknown_email = service.login(&login_request("nobody@acme.test", "Str0ngP@ss"), now);
    match (&wrong_password, &unknown_email) {
        (Err(DomainError::InvalidCredentials), Err(DomainError::InvalidCredentials)) => {}
        other => panic!("expected InvalidCredentials twice, got {:?}", other),
    }
    assert_eq!(
        wrong_password.unwrap_err().error_code(),
        unknown_email.unwrap_err().error_code()
    );
}

#[test]
fn login_token_validates_and_carries_the_tenant() {
    let mut service = AuthAppService::new("scenario-secret");
    let now: i64 = 1_700_000_000;
    assert!(service.register_tenant(&acme_registration()).is_ok());
    let response = service.login(&login_request("a@acme.test", "Str0ngP@ss"), now).unwrap();

    let claims = service.jwt.validate_token_at(&response.access_token, now + 1).unwrap();
    assert_eq!(claims.sub, "a@acme.test");
    assert_eq!(claims.tenant_id, "acme");
    assert_eq!(claims.email, "a@acme.test");
    assert_eq!(claims.iat, now);
    assert_eq!(claims.exp, now + 900);
}

#[test]
fn refresh_rotates_the_stored_token() {
    let mut service = AuthAppService::new("scenario-secret");
    let now: i64 = 1_700_000_000;
    assert!(service.register_tenant(&acme_registration()).is_ok());
    let first = service.login(&login_request("a@acme.test", "Str0ngP@ss"), now).unwrap();

    let refreshed = service.refresh(&first.refresh_token, now + 60).unwrap();
    assert_eq!(refreshed.user.email, "a@acme.test");
    assert_eq!(refreshed.tenant.slug, "acme");
    assert_ne!(refreshed.refresh_token, first.refresh_token);

    // The rotated-out token no longer resolves; the fresh one does.
    match service.refresh(&first.refresh_token, now + 120) {
        Err(DomainError::TokenInvalid) => {}
        r => panic!("expected TokenInvalid for the rotated-out token, got {:?}", r),
    }
    assert!(service.refresh(&refreshed.refresh_token, now + 120).is_ok());
}

#[test]
fn expired_refresh_token_is_rejected() {
    let mut service = AuthAppService::new("scenario-secret");
    let now: i64 = 1_700_000_000;
    assert!(service.register_tenant(&acme_registration()).is_ok());
    let response = service.login(&login_request("a@acme.test", "Str0ngP@ss"), now).unwrap();

    // The stored refresh token expires at now + 604800.
    let beyond = now + 604_800;
    match service.refresh(&response.refresh_token, beyond) {
        Err(DomainError::TokenInvalid) => {}
        r => panic!("expected TokenInvalid past the TTL, got {:?}", r),
    }
    assert!(service.refresh(&response.refresh_token, beyond - 1).is_ok());
}

#[test]
fn registration_input_rules_are_enforced() {
    let mut service = AuthAppService::new("scenario-secret");
    let mut bad = acme_registration();
    bad.slug = "a".to_string();
    match service.register_tenant(&bad) {
        Err(DomainError::ValidationFailed { .. }) => {}
        r => panic!("expected ValidationFailed, got {:?}", r),
    }
    let mut bad_email = acme_registration();
    bad_email.admin_email = "not-an-email".to_string();
    assert!(matches!(
        service.register_tenant(&bad_email),
        Err(DomainError::ValidationFailed { .. })
    ));
    let mut short_password = acme_registration();
    short_password.admin_password = "short".to_string();
    assert!(matches!(
        service.register_tenant(&short_password),
        Err(DomainError::ValidationFailed { .. })
    ));
}

#[test]
fn roles_seam_reports_the_owner_membership() {
    let mut service = AuthAppService::new("scenario-secret");
    assert!(service.register_tenant(&acme_registration()).is_ok());
    let roles = service.directory.roles_of("a@acme.test", "acme");
    assert_eq!(roles, vec!["owner".to_string()]);
    assert!(service.directory.roles_of("a@acme.test", "other").is_empty());
}
