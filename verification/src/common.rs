//! Shared request and response shapes: the uniform response envelope, the
//! pagination parameters and their arithmetic, sort order parsing, and the
//! small value types reused across modules.

use vstd::prelude::*;
use vstd::string::StrSliceExecFns;
use vstd::string::StringExecFns;

verus! {

/// Standard pagination parameters, as they arrive from a query string.
#[derive(Debug, Clone)]
pub struct PaginationParams {
    pub page: Option<u32>,
    pub per_page: Option<u32>,
}

impl Default for PaginationParams {
    fn default() -> (r: Self)
        ensures
            r.page == Some(1u32),
            r.per_page == Some(20u32),
    {
        Self { page: Some(1), per_page: Some(20) }
    }
}

/// Standard pagination response.
#[derive(Debug, Clone)]
pub struct PaginatedResponse<T> {
    pub data: Vec<T>,
    pub pagination: PaginationMeta,
}

#[derive(Debug, Clone)]
pub struct PaginationMeta {
    pub current_page: u32,
    pub per_page: u32,
    pub total_pages: u32,
    pub total_count: u64,
    pub has_next: bool,
    pub has_prev: bool,
}

#[derive(Debug, Clone, Copy, PartialEq, Eq, Structural)]
pub enum SortOrder {
    Asc,
    Desc,
}

impl Default for SortOrder {
    fn default() -> (r: Self)
        ensures
            r == SortOrder::Desc,
    {
        Self::Desc
    }
}

/// The page actually served: a missing or zero page becomes one.
pub open spec fn spec_effective_page(page: Option<u32>) -> u32 {
    match page {
        Some(p) => if p >= 1 {
            p
        } else {
            1
        },
        None => 1,
    }
}

/// The page size actually served: defaulted to twenty, clamped into [1, 100].
pub open spec fn spec_effective_per_page(per_page: Option<u32>) -> u32 {
    match per_page {
        Some(p) => if p < 1 {
            1
        } else if p > 100 {
            100
        } else {
            p
        },
        None => 20,
    }
}

/// Resolves the requested page and page size and the row offset they imply.
pub fn resolve_paging(page: Option<u32>, per_page: Option<u32>) -> (r: (u32, u32, i64))
    ensures
        r.0 == spec_effective_page(page),
        r.1 == spec_effective_per_page(per_page),
        r.2 as int == (r.0 - 1) * r.1,
{
    let p: u32 = match page {
        Some(p) => if p >= 1 {
            p
        } else {
            1
        },
        None => 1,
    };
    let pp: u32 = match per_page {
        Some(p) => if p < 1 {
            1
        } else if p > 100 {
            100
        } else {
            p
        },
        None => 20,
    };
    proof {
        assert((p as int - 1) * (pp as int) <= 0xFFFF_FFFF * 100) by (nonlinear_arith)
            requires
                1 <= p <= u32::MAX,
                1 <= pp <= 100,
        ;
    }
    let offset: i64 = ((p - 1) as i64) * (pp as i64);
    (p, pp, offset)
}

/// Pages needed for `total_count` rows at `per_page` rows a page, rounded
/// up and saturated at the widest page number.
pub open spec fn spec_total_pages(total_count: u64, per_page: u32) -> u32 {
    let tp = (total_count as int + per_page as int - 1) / (per_page as int);
    if tp > u32::MAX as int {
        u32::MAX
    } else {
        tp as u32
    }
}

/// Builds the pagination envelope for one served page.
pub fn pagination_meta(page: u32, per_page: u32, total_count: u64) -> (r: PaginationMeta)
    requires
        page >= 1,
        per_page >= 1,
    ensures
        r.current_page == page,
        r.per_page == per_page,
        r.total_count == total_count,
        r.total_pages == spec_total_pages(total_count, per_page),
        r.has_next == (page < r.total_pages),
        r.has_prev == (page > 1),
{
    let pp64 = per_page as u64;
    let full = total_count / pp64;
    let rem = total_count % pp64;
    proof {
        assert(rem != 0 ==> full < u64::MAX) by (nonlinear_arith)
            requires
                pp64 >= 1,
                full as int == total_count as int / pp64 as int,
                rem as int == total_count as int % pp64 as int,
        ;
    }
    let tp64: u64 = if rem != 0 {
        full + 1
    } else {
        full
    };
    proof {
        assert(tp64 as int == (total_count as int + per_page as int - 1) / (
        per_page as int)) by (nonlinear_arith)
            requires
                pp64 as int == per_page as int,
                per_page >= 1,
                full as int == total_count as int / pp64 as int,
                rem as int == total_count as int % pp64 as int,
                tp64 as int == if rem != 0 {
                    full as int + 1
                } else {
                    full as int
                },
        ;
    }
    let total_pages: u32 = if tp64 > (u32::MAX as u64) {
        u32::MAX
    } else {
        tp64 as u32
    };
    PaginationMeta {
        current_page: page,
        per_page: per_page,
        total_pages: total_pages,
        total_count: total_count,
        has_next: page < total_pages,
        has_prev: page > 1,
    }
}

/// Case-insensitive equality of a candidate against a lower-case ASCII
/// pattern.
pub open spec fn spec_matches_ci(s: Seq<char>, pattern: Seq<char>) -> bool {
    s.len() == pattern.len() && forall|i: int|
        0 <= i < s.len() ==> spec_ci_char(#[trigger] s[i], pattern[i])
}

/// A character matches a lower-case pattern character, ignoring ASCII case.
pub open spec fn spec_ci_char(c: char, pattern: char) -> bool {
    c as u32 == pattern as u32 || ('A' as u32 <= c as u32 && c as u32 <= 'Z' as u32 && c as u32
        + 32 == pattern as u32)
}

fn eq_ignore_ascii_case(s: &str, pattern: &str) -> (r: bool)
    ensures
        r == spec_matches_ci(s@, pattern@),
{
    let n = s.unicode_len();
    let pn = pattern.unicode_len();
    if n != pn {
        return false;
    }
    let mut i: usize = 0;
    while i < n
        invariant
            n == s@.len(),
            n == pattern@.len(),
            0 <= i <= n,
            forall|j: int| 0 <= j < i ==> spec_ci_char(#[trigger] s@[j], pattern@[j]),
        decreases n - i,
    {
        let c = s.get_char(i);
        let p = pattern.get_char(i);
        let cu = c as u32;
        let pu = p as u32;
        let matches_here = cu == pu || (65 <= cu && cu <= 90 && cu + 32 == pu);
        if !matches_here {
            proof {
                assert('A' as u32 == 65 && 'Z' as u32 == 90);
                assert(!spec_ci_char(s@[i as int], pattern@[i as int]));
            }
            return false;
        }
        i = i + 1;
    }
    true
}

/// Parses a requested sort order, ignoring ASCII case; anything other than
/// ascending or descending is rejected.
pub fn parse_sort_order(s: &str) -> (r: Option<SortOrder>)
    ensures
        r == Some(SortOrder::Asc) <==> spec_matches_ci(s@, "asc"@),
        r == Some(SortOrder::Desc) <==> (!spec_matches_ci(s@, "asc"@) && spec_matches_ci(
            s@,
            "desc"@,
        )),
        r is None <==> (!spec_matches_ci(s@, "asc"@) && !spec_matches_ci(s@, "desc"@)),
{
    if eq_ignore_ascii_case(s, "asc") {
        Some(SortOrder::Asc)
    } else if eq_ignore_ascii_case(s, "desc") {
        Some(SortOrder::Desc)
    } else {
        None
    }
}

/// Standard API response wrapper: a success flag and either data or a
/// message, never raw storage error text.
#[derive(Debug, Clone)]
pub struct ApiResponse<T> {
    pub success: bool,
    pub data: Option<T>,
    pub message: Option<String>,
    pub errors: Option<Vec<String>>,
}

impl<T> ApiResponse<T> {
    pub fn success(data: T) -> (r: Self)
        ensures
            r.success == true,
            r.data == Some(data),
            r.message is None,
            r.errors is None,
    {
        Self { success: true, data: Some(data), message: None, errors: None }
    }

    pub fn success_with_message(data: T, message: String) -> (r: Self)
        ensures
            r.success == true,
            r.data == Some(data),
            r.message == Some(message),
            r.errors is None,
    {
        Self { success: true, data: Some(data), message: Some(message), errors: None }
    }

    pub fn error_typed(message: String) -> (r: ApiResponse<T>)
        ensures
            r.success == false,
            r.data is None,
            r.message == Some(message),
            r.errors is None,
    {
        ApiResponse { success: false, data: None, message: Some(message), errors: None }
    }

    pub fn error(message: String) -> (r: ApiResponse<()>)
        ensures
            r.success == false,
            r.data is None,
            r.message == Some(message),
            r.errors is None,
    {
        ApiResponse { success: false, data: None, message: Some(message), errors: None }
    }

    pub fn validation_error(errors: Vec<String>) -> (r: ApiResponse<()>)
        ensures
            r.success == false,
            r.data is None,
            r.message matches Some(m) && m@ == "Validation failed"@,
            r.errors == Some(errors),
    {
        ApiResponse {
            success: false,
            data: None,
            message: Some(String::from_str("Validation failed")),
            errors: Some(errors),
        }
    }
}

/// Text equality of two string slices, compared character by character.
pub(crate) fn str_eq(a: &str, b: &str) -> (r: bool)
    ensures
        r == (a@ == b@),
{
    let n = a.unicode_len();
    if n != b.unicode_len() {
        return false;
    }
    let mut i: usize = 0;
    while i < n
        invariant
            n == a@.len(),
            n == b@.len(),
            0 <= i <= n,
            forall|j: int| 0 <= j < i ==> a@[j] == b@[j],
        decreases n - i,
    {
        if a.get_char(i) != b.get_char(i) {
            return false;
        }
        i = i + 1;
    }
    proof {
        assert(a@ =~= b@);
    }
    true
}

/// Address structure.
#[derive(Debug, Clone)]
pub struct Address {
    pub street: String,
    pub city: String,
    pub state: Option<String>,
    pub postal_code: String,
    pub country: String,
}

/// Contact information structure.
#[derive(Debug, Clone)]
pub struct ContactInfo {
    pub email: Option<String>,
    pub phone: Option<String>,
    pub mobile: Option<String>,
    pub fax: Option<String>,
    pub website: Option<String>,
}

/// Validation error details.
#[derive(Debug, Clone)]
pub struct ValidationError {
    pub field: String,
    pub message: String,
    pub code: String,
}

/// Business logic error types, as they appear on the wire.
#[derive(Debug, Clone, Copy, PartialEq, Eq, Structural)]
pub enum BusinessErrorType {
    InvalidCredentials,
    AccountLocked,
    EmailNotVerified,
    TokenExpired,
    TokenInvalid,
    InsufficientPermissions,
    TenantNotFound,
    TenantInactive,
    TenantSlugTaken,
    UserNotFound,
    UserAlreadyExists,
    UserInactive,
    InvalidInvitation,
    InsufficientStock,
    InvalidStatusTransition,
    DuplicateEntry,
    ReferencedByOtherEntity,
    EmailServiceUnavailable,
    PaymentServiceUnavailable,
    RateLimitExceeded,
    UnknownError,
}

impl BusinessErrorType {
    /// The wire code of each variant.
    pub open spec fn spec_as_str(&self) -> Seq<char> {
        match self {
            Self::InvalidCredentials => "INVALID_CREDENTIALS"@,
            Self::AccountLocked => "ACCOUNT_LOCKED"@,
            Self::EmailNotVerified => "EMAIL_NOT_VERIFIED"@,
            Self::TokenExpired => "TOKEN_EXPIRED"@,
            Self::TokenInvalid => "TOKEN_INVALID"@,
            Self::InsufficientPermissions => "INSUFFICIENT_PERMISSIONS"@,
            Self::TenantNotFound => "TENANT_NOT_FOUND"@,
            Self::TenantInactive => "TENANT_INACTIVE"@,
            Self::TenantSlugTaken => "TENANT_SLUG_TAKEN"@,
            Self::UserNotFound => "USER_NOT_FOUND"@,
            Self::UserAlreadyExists => "USER_ALREADY_EXISTS"@,
            Self::UserInactive => "USER_INACTIVE"@,
            Self::InvalidInvitation => "INVALID_INVITATION"@,
            Self::InsufficientStock => "INSUFFICIENT_STOCK"@,
            Self::InvalidStatusTransition => "INVALID_STATUS_TRANSITION"@,
            Self::DuplicateEntry => "DUPLICATE_ENTRY"@,
            Self::ReferencedByOtherEntity => "REFERENCED_BY_OTHER_ENTITY"@,
            Self::EmailServiceUnavailable => "EMAIL_SERVICE_UNAVAILABLE"@,
            Self::PaymentServiceUnavailable => "PAYMENT_SERVICE_UNAVAILABLE"@,
            Self::RateLimitExceeded => "RATE_LIMIT_EXCEEDED"@,
            Self::UnknownError => "UNKNOWN_ERROR"@,
        }
    }

    pub fn as_str(&self) -> (r: &'static str)
        ensures
            r@ == self.spec_as_str(),
    {
        match self {
            Self::InvalidCredentials => "INVALID_CREDENTIALS",
            Self::AccountLocked => "ACCOUNT_LOCKED",
            Self::EmailNotVerified => "EMAIL_NOT_VERIFIED",
            Self::TokenExpired => "TOKEN_EXPIRED",
            Self::TokenInvalid => "TOKEN_INVALID",
            Self::InsufficientPermissions => "INSUFFICIENT_PERMISSIONS",
            Self::TenantNotFound => "TENANT_NOT_FOUND",
            Self::TenantInactive => "TENANT_INACTIVE",
            Self::TenantSlugTaken => "TENANT_SLUG_TAKEN",
            Self::UserNotFound => "USER_NOT_FOUND",
            Self::UserAlreadyExists => "USER_ALREADY_EXISTS",
            Self::UserInactive => "USER_INACTIVE",
            Self::InvalidInvitation => "INVALID_INVITATION",
            Self::InsufficientStock => "INSUFFICIENT_STOCK",
            Self::InvalidStatusTransition => "INVALID_STATUS_TRANSITION",
            Self::DuplicateEntry => "DUPLICATE_ENTRY",
            Self::ReferencedByOtherEntity => "REFERENCED_BY_OTHER_ENTITY",
            Self::EmailServiceUnavailable => "EMAIL_SERVICE_UNAVAILABLE",
            Self::PaymentServiceUnavailable => "PAYMENT_SERVICE_UNAVAILABLE",
            Self::RateLimitExceeded => "RATE_LIMIT_EXCEEDED",
            Self::UnknownError => "UNKNOWN_ERROR",
        }
    }
}

} // verus!
