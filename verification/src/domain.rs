//! Domain vocabulary shared with the transport layer: status enumerations
//! of the business modules, the listing query shapes, the health report,
//! and the small per-request helpers behind them.

use vstd::prelude::*;
use vstd::string::StrSliceExecFns;
use vstd::string::StringExecFns;

verus! {

#[derive(Debug, Clone, Copy, PartialEq, Eq, Structural)]
pub enum AccountType {
    Asset,
    Liability,
    Equity,
    Revenue,
    Expense,
}

#[derive(Debug, Clone, Copy, PartialEq, Eq, Structural)]
pub enum BalanceType {
    Debit,
    Credit,
}

#[derive(Debug, Clone, Copy, PartialEq, Eq, Structural)]
pub enum JournalEntryStatus {
    Draft,
    Posted,
    Reversed,
}

#[derive(Debug, Clone, Copy, PartialEq, Eq, Structural)]
pub enum PeriodStatus {
    Open,
    Closed,
}

#[derive(Debug, Clone, Copy, PartialEq, Eq, Structural)]
pub enum ProductStatus {
    Active,
    Inactive,
    Discontinued,
    OutOfStock,
}

#[derive(Debug, Clone, Copy, PartialEq, Eq, Structural)]
pub enum StockMovementType {
    In,
    Out,
    Transfer,
    Adjustment,
}

#[derive(Debug, Clone, Copy, PartialEq, Eq, Structural)]
pub enum VendorStatus {
    Active,
    Inactive,
    Blocked,
    Pending,
}

#[derive(Debug, Clone, Copy, PartialEq, Eq, Structural)]
pub enum PurchaseOrderStatus {
    Draft,
    Pending,
    Approved,
    Sent,
    PartiallyReceived,
    Received,
    Cancelled,
    Closed,
}

#[derive(Debug, Clone, Copy, PartialEq, Eq, Structural)]
pub enum ReceiptStatus {
    Draft,
    Received,
    Cancelled,
}

#[derive(Debug, Clone, Copy, PartialEq, Eq, Structural)]
pub enum QualityStatus {
    Accepted,
    Rejected,
    Pending,
}

#[derive(Debug, Clone, Copy, PartialEq, Eq, Structural)]
pub enum InvoiceStatus {
    Draft,
    Pending,
    Approved,
    Paid,
    Overdue,
    Cancelled,
}

/// Listing query over accounts.
#[derive(Debug, Clone)]
pub struct ListAccountsQuery {
    pub page: Option<u32>,
    pub per_page: Option<u32>,
    pub search: Option<String>,
    pub account_type: Option<String>,
    pub sort_by: Option<String>,
    pub sort_order: Option<String>,
}

/// Listing query over companies.
#[derive(Debug, Clone)]
pub struct ListCompaniesQuery {
    pub page: Option<u32>,
    pub per_page: Option<u32>,
    pub search: Option<String>,
    pub sort_by: Option<String>,
    pub sort_order: Option<String>,
}

/// Listing query over contacts.
#[derive(Debug, Clone)]
pub struct ListContactsQuery {
    pub page: Option<u32>,
    pub per_page: Option<u32>,
    pub search: Option<String>,
    pub sort_by: Option<String>,
    pub sort_order: Option<String>,
}

/// Listing query over warehouses.
#[derive(Debug, Clone)]
pub struct ListWarehousesQuery {
    pub page: Option<u32>,
    pub per_page: Option<u32>,
    pub search: Option<String>,
}

/// Listing query over vendors.
#[derive(Debug, Clone)]
pub struct ListVendorsQuery {
    pub page: Option<u32>,
    pub per_page: Option<u32>,
    pub search: Option<String>,
    pub status: Option<String>,
    pub sort_by: Option<String>,
    pub sort_order: Option<String>,
}

/// The bounds every listing query must respect: page within [1, 10000],
/// page size within [1, 100], a search term within [1, 100] characters.
pub open spec fn spec_list_bounds(
    page: Option<u32>,
    per_page: Option<u32>,
    search: Option<Seq<char>>,
) -> bool {
    &&& (page matches Some(p) ==> 1 <= p <= 10000)
    &&& (per_page matches Some(p) ==> 1 <= p <= 100)
    &&& (search matches Some(s) ==> 1 <= s.len() <= 100)
}

/// Checks a listing query against the shared bounds.
pub fn list_query_within_bounds(
    page: Option<u32>,
    per_page: Option<u32>,
    search: &Option<String>,
) -> (r: bool)
    ensures
        r == spec_list_bounds(
            page,
            per_page,
            match search {
                Some(s) => Some(s@),
                None => None,
            },
        ),
{
    let page_ok = match page {
        Some(p) => 1 <= p && p <= 10000,
        None => true,
    };
    let per_ok = match per_page {
        Some(p) => 1 <= p && p <= 100,
        None => true,
    };
    let search_ok = match search {
        Some(s) => {
            let n = s.as_str().unicode_len();
            1 <= n && n <= 100
        },
        None => true,
    };
    page_ok && per_ok && search_ok
}

/// The health report returned by the health endpoint.
#[derive(Debug, Clone)]
pub struct HealthStatus {
    pub status: String,
    pub version: String,
    pub database: String,
    pub redis: String,
    pub uptime: u64,
}

/// The report is healthy exactly when both stores are.
pub fn overall_health(database_healthy: bool, redis_healthy: bool) -> (r: &'static str)
    ensures
        (database_healthy && redis_healthy) ==> r@ == "healthy"@,
        !(database_healthy && redis_healthy) ==> r@ == "unhealthy"@,
{
    if database_healthy && redis_healthy {
        "healthy"
    } else {
        "unhealthy"
    }
}

/// What one store probe reports.
fn probe_text(healthy: bool) -> (r: &'static str)
    ensures
        healthy ==> r@ == "healthy"@,
        !healthy ==> r@ == "unhealthy"@,
{
    if healthy {
        "healthy"
    } else {
        "unhealthy"
    }
}

/// Builds the health report from the two probe outcomes and the process
/// start and current times.
pub fn health_report(
    version: String,
    database_healthy: bool,
    redis_healthy: bool,
    started_at: u64,
    now: u64,
) -> (r: HealthStatus)
    requires
        started_at <= now,
    ensures
        (database_healthy && redis_healthy) ==> r.status@ == "healthy"@,
        !(database_healthy && redis_healthy) ==> r.status@ == "unhealthy"@,
        database_healthy ==> r.database@ == "healthy"@,
        !database_healthy ==> r.database@ == "unhealthy"@,
        redis_healthy ==> r.redis@ == "healthy"@,
        !redis_healthy ==> r.redis@ == "unhealthy"@,
        r.version == version,
        r.uptime == now - started_at,
{
    HealthStatus {
        status: String::from_str(overall_health(database_healthy, redis_healthy)),
        version: version,
        database: String::from_str(probe_text(database_healthy)),
        redis: String::from_str(probe_text(redis_healthy)),
        uptime: now - started_at,
    }
}

/// Seconds the process has been up.
pub fn get_uptime(started_at: u64, now: u64) -> (r: u64)
    requires
        started_at <= now,
    ensures
        r == now - started_at,
{
    now - started_at
}

/// The error-handling middleware layer: a pass-through stage where
/// unhandled failures become uniform internal-error responses.
#[derive(Debug, Clone)]
pub struct ErrorHandlerLayer {}

impl ErrorHandlerLayer {
    pub fn new() -> (r: Self)
        ensures
            r == (ErrorHandlerLayer {  }),
    {
        Self {  }
    }
}

/// The service produced by [`ErrorHandlerLayer`] around an inner stage.
#[derive(Debug, Clone)]
pub struct ErrorHandlerService<S> {
    pub inner: S,
}

/// The request-identifier middleware layer: tags each request and its
/// response with a fresh identifier.
#[derive(Debug, Clone)]
pub struct RequestIdLayer {}

impl RequestIdLayer {
    pub fn new() -> (r: Self)
        ensures
            r == (RequestIdLayer {  }),
    {
        Self {  }
    }
}

/// The service produced by [`RequestIdLayer`] around an inner stage.
#[derive(Debug, Clone)]
pub struct RequestIdService<S> {
    pub inner: S,
}

} // verus!
