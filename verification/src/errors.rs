//! The domain error taxonomy shared by every component: each variant maps to
//! one stable machine-readable code and one HTTP status class.

use vstd::prelude::*;

verus! {

/// Domain-specific errors
#[derive(Debug, Clone)]
pub enum DomainError {
    // Authentication errors
    InvalidCredentials,
    AccountLocked,
    EmailNotVerified,
    TokenExpired,
    TokenInvalid,
    InsufficientPermissions { permission: String },
    // Tenant errors
    TenantNotFound { tenant_id: String },
    TenantInactive { tenant_id: String },
    TenantSlugTaken { slug: String },
    // User errors
    UserNotFound { user_id: String },
    UserAlreadyExists { email: String },
    UserInactive { user_id: String },
    InvalidInvitation,
    // Business logic errors
    InsufficientStock { product_id: String },
    InvalidStatusTransition { from: String, to: String },
    DuplicateEntry { field: String },
    ReferencedByOtherEntity,
    // Validation errors
    ValidationFailed { message: String },
    // External service errors
    EmailServiceUnavailable,
    PaymentServiceUnavailable,
    // Generic errors
    InternalError { message: String },
    NotFound { resource: String },
    Conflict { message: String },
}

impl DomainError {
    /// The stable machine-readable code of each variant.
    pub open spec fn spec_error_code(&self) -> Seq<char> {
        match self {
            Self::InvalidCredentials => "INVALID_CREDENTIALS"@,
            Self::AccountLocked => "ACCOUNT_LOCKED"@,
            Self::EmailNotVerified => "EMAIL_NOT_VERIFIED"@,
            Self::TokenExpired => "TOKEN_EXPIRED"@,
            Self::TokenInvalid => "TOKEN_INVALID"@,
            Self::InsufficientPermissions { .. } => "INSUFFICIENT_PERMISSIONS"@,
            Self::TenantNotFound { .. } => "TENANT_NOT_FOUND"@,
            Self::TenantInactive { .. } => "TENANT_INACTIVE"@,
            Self::TenantSlugTaken { .. } => "TENANT_SLUG_TAKEN"@,
            Self::UserNotFound { .. } => "USER_NOT_FOUND"@,
            Self::UserAlreadyExists { .. } => "USER_ALREADY_EXISTS"@,
            Self::UserInactive { .. } => "USER_INACTIVE"@,
            Self::InvalidInvitation => "INVALID_INVITATION"@,
            Self::InsufficientStock { .. } => "INSUFFICIENT_STOCK"@,
            Self::InvalidStatusTransition { .. } => "INVALID_STATUS_TRANSITION"@,
            Self::DuplicateEntry { .. } => "DUPLICATE_ENTRY"@,
            Self::ReferencedByOtherEntity => "REFERENCED_BY_OTHER_ENTITY"@,
            Self::ValidationFailed { .. } => "VALIDATION_FAILED"@,
            Self::EmailServiceUnavailable => "EMAIL_SERVICE_UNAVAILABLE"@,
            Self::PaymentServiceUnavailable => "PAYMENT_SERVICE_UNAVAILABLE"@,
            Self::InternalError { .. } => "INTERNAL_ERROR"@,
            Self::NotFound { .. } => "NOT_FOUND"@,
            Self::Conflict { .. } => "CONFLICT"@,
        }
    }

    /// The HTTP status class of each variant: 401 for credential and token
    /// problems, 403 for missing permissions, 404 for absences, 409 for
    /// conflicts, 422 for validation, 502 for external services, 500 else.
    pub open spec fn spec_http_status_code(&self) -> u16 {
        match self {
            Self::InvalidCredentials
            | Self::AccountLocked
            | Self::EmailNotVerified
            | Self::TokenExpired
            | Self::TokenInvalid
            | Self::TenantInactive { .. }
            | Self::UserInactive { .. } => 401,
            Self::InsufficientPermissions { .. } => 403,
            Self::TenantNotFound { .. } | Self::UserNotFound { .. } | Self::NotFound { .. } => 404,
            Self::TenantSlugTaken { .. }
            | Self::UserAlreadyExists { .. }
            | Self::DuplicateEntry { .. }
            | Self::Conflict { .. } => 409,
            Self::ValidationFailed { .. }
            | Self::InvalidInvitation
            | Self::InvalidStatusTransition { .. } => 422,
            Self::EmailServiceUnavailable | Self::PaymentServiceUnavailable => 502,
            _ => 500,
        }
    }

    pub fn error_code(&self) -> (r: &'static str)
        ensures
            r@ == self.spec_error_code(),
    {
        match self {
            Self::InvalidCredentials => "INVALID_CREDENTIALS",
            Self::AccountLocked => "ACCOUNT_LOCKED",
            Self::EmailNotVerified => "EMAIL_NOT_VERIFIED",
            Self::TokenExpired => "TOKEN_EXPIRED",
            Self::TokenInvalid => "TOKEN_INVALID",
            Self::InsufficientPermissions { .. } => "INSUFFICIENT_PERMISSIONS",
            Self::TenantNotFound { .. } => "TENANT_NOT_FOUND",
            Self::TenantInactive { .. } => "TENANT_INACTIVE",
            Self::TenantSlugTaken { .. } => "TENANT_SLUG_TAKEN",
            Self::UserNotFound { .. } => "USER_NOT_FOUND",
            Self::UserAlreadyExists { .. } => "USER_ALREADY_EXISTS",
            Self::UserInactive { .. } => "USER_INACTIVE",
            Self::InvalidInvitation => "INVALID_INVITATION",
            Self::InsufficientStock { .. } => "INSUFFICIENT_STOCK",
            Self::InvalidStatusTransition { .. } => "INVALID_STATUS_TRANSITION",
            Self::DuplicateEntry { .. } => "DUPLICATE_ENTRY",
            Self::ReferencedByOtherEntity => "REFERENCED_BY_OTHER_ENTITY",
            Self::ValidationFailed { .. } => "VALIDATION_FAILED",
            Self::EmailServiceUnavailable => "EMAIL_SERVICE_UNAVAILABLE",
            Self::PaymentServiceUnavailable => "PAYMENT_SERVICE_UNAVAILABLE",
            Self::InternalError { .. } => "INTERNAL_ERROR",
            Self::NotFound { .. } => "NOT_FOUND",
            Self::Conflict { .. } => "CONFLICT",
        }
    }

    pub fn http_status_code(&self) -> (r: u16)
        ensures
            r == self.spec_http_status_code(),
    {
        match self {
            Self::InvalidCredentials
            | Self::AccountLocked
            | Self::EmailNotVerified
            | Self::TokenExpired
            | Self::TokenInvalid
            | Self::TenantInactive { .. }
            | Self::UserInactive { .. } => 401,
            Self::InsufficientPermissions { .. } => 403,
            Self::TenantNotFound { .. } | Self::UserNotFound { .. } | Self::NotFound { .. } => 404,
            Self::TenantSlugTaken { .. }
            | Self::UserAlreadyExists { .. }
            | Self::DuplicateEntry { .. }
            | Self::Conflict { .. } => 409,
            Self::ValidationFailed { .. }
            | Self::InvalidInvitation
            | Self::InvalidStatusTransition { .. } => 422,
            Self::EmailServiceUnavailable | Self::PaymentServiceUnavailable => 502,
            _ => 500,
        }
    }
}

pub type DomainResult<T> = Result<T, DomainError>;

} // verus!
