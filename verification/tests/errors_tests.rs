use tenauth::common::BusinessErrorType;
use tenauth::errors::DomainError;

#[test]
fn error_codes_are_stable() {
    assert_eq!(DomainError::InvalidCredentials.error_code(), "INVALID_CREDENTIALS");
    assert_eq!(DomainError::TokenExpired.error_code(), "TOKEN_EXPIRED");
    assert_eq!(DomainError::TokenInvalid.error_code(), "TOKEN_INVALID");
    assert_eq!(
        DomainError::TenantSlugTaken { slug: "acme".to_string() }.error_code(),
        "TENANT_SLUG_TAKEN"
    );
    assert_eq!(
        DomainError::UserAlreadyExists { email: "a@b.test".to_string() }.error_code(),
        "USER_ALREADY_EXISTS"
    );
    assert_eq!(
        DomainError::ValidationFailed { message: "m".to_string() }.error_code(),
        "VALIDATION_FAILED"
    );
    assert_eq!(
        DomainError::InternalError { message: "m".to_string() }.error_code(),
        "INTERNAL_ERROR"
    );
}

#[test]
fn http_status_classes_follow_the_taxonomy() {
    assert_eq!(DomainError::InvalidCredentials.http_status_code(), 401);
    assert_eq!(DomainError::TokenExpired.http_status_code(), 401);
    assert_eq!(DomainError::TokenInvalid.http_status_code(), 401);
    assert_eq!(
        DomainError::InsufficientPermissions { permission: "p".to_string() }.http_status_code(),
        403
    );
    assert_eq!(
        DomainError::TenantNotFound { tenant_id: "t".to_string() }.http_status_code(),
        404
    );
    assert_eq!(
        DomainError::TenantSlugTaken { slug: "acme".to_string() }.http_status_code(),
        409
    );
    assert_eq!(
        DomainError::UserAlreadyExists { email: "a@b.test".to_string() }.http_status_code(),
        409
    );
    assert_eq!(
        DomainError::ValidationFailed { message: "m".to_string() }.http_status_code(),
        422
    );
    assert_eq!(DomainError::EmailServiceUnavailable.http_status_code(), 502);
    assert_eq!(
        DomainError::InternalError { message: "m".to_string() }.http_status_code(),
        500
    );
    assert_eq!(
        DomainError::TenantInactive { tenant_id: "t".to_string() }.http_status_code(),
        401
    );
}

#[test]
fn business_error_wire_codes() {
    assert_eq!(BusinessErrorType::InvalidCredentials.as_str(), "INVALID_CREDENTIALS");
    assert_eq!(BusinessErrorType::TenantSlugTaken.as_str(), "TENANT_SLUG_TAKEN");
    assert_eq!(BusinessErrorType::RateLimitExceeded.as_str(), "RATE_LIMIT_EXCEEDED");
    assert_eq!(BusinessErrorType::UnknownError.as_str(), "UNKNOWN_ERROR");
}
