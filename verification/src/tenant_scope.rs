//! Tenant context propagation and the row-level-security contract.
//!
//! Per request, the resolved tenant identifier is bound to the database
//! connection as a session-local configuration value; the database's row
//! security policies read it and filter every query to rows of that tenant.
//! This module carries the binding statement that the storage layer executes
//! and the verified model of what the policy guarantees: a request bound to
//! one tenant can neither read nor address another tenant's rows.

use vstd::prelude::*;
use vstd::seq_lib::group_filter_ensures;

use crate::common::str_eq;
use vstd::string::StringExecFns;

verus! {

/// A row of a tenant-scoped table: the tenant column that row security
/// filters by, the row key, and the row's content.
#[derive(Debug, Clone)]
pub struct ScopedRow {
    pub tenant_id: String,
    pub id: String,
    pub payload: String,
}

/// The mathematical content of a scoped row.
pub ghost struct ScopedRowView {
    pub tenant_id: Seq<char>,
    pub id: Seq<char>,
    pub payload: Seq<char>,
}

impl View for ScopedRow {
    type V = ScopedRowView;

    open spec fn view(&self) -> ScopedRowView {
        ScopedRowView { tenant_id: self.tenant_id@, id: self.id@, payload: self.payload@ }
    }
}

impl DeepView for ScopedRow {
    type V = ScopedRowView;

    open spec fn deep_view(&self) -> ScopedRowView {
        self.view()
    }
}

/// The session-local binding that makes row security filter by a tenant: the
/// parameterized statement and the tenant identifier to bind. The `true`
/// argument keeps the setting transaction-local, so it cannot leak to a later
/// request reusing the pooled connection.
#[derive(Debug, Clone)]
pub struct TenantBinding {
    pub statement: String,
    pub parameter: String,
}

/// Builds the binding for a tenant. The caller must run it on the same
/// connection that serves the rest of the request, before any other query.
pub fn tenant_binding(tenant_id: &str) -> (r: TenantBinding)
    ensures
        r.statement@ == "SELECT set_config('app.current_tenant_id', $1, true)"@,
        r.parameter@ == tenant_id@,
{
    TenantBinding {
        statement: String::from_str("SELECT set_config('app.current_tenant_id', $1, true)"),
        parameter: String::from_str(tenant_id),
    }
}

/// The rows of a tenant-scoped table that a connection bound to `tenant_id`
/// can see: exactly the rows whose tenant column matches.
pub open spec fn spec_visible(rows: Seq<ScopedRowView>, tenant_id: Seq<char>) -> Seq<
    ScopedRowView,
> {
    rows.filter(|r: ScopedRowView| r.tenant_id == tenant_id)
}

/// Model of a tenant-scoped table under row-level security.
#[derive(Debug, Clone)]
pub struct TenantScopedTable {
    rows: Vec<ScopedRow>,
}

impl TenantScopedTable {
    /// All rows, over every tenant.
    pub closed spec fn spec_rows(&self) -> Seq<ScopedRowView> {
        self.rows.deep_view()
    }

    pub fn new() -> (r: Self)
        ensures
            r.spec_rows() == Seq::<ScopedRowView>::empty(),
    {
        let r = Self { rows: Vec::new() };
        proof {
            assert(r.spec_rows() =~= Seq::<ScopedRowView>::empty());
        }
        r
    }

    /// Inserts a row under its own tenant column.
    pub fn insert(&mut self, row: ScopedRow)
        ensures
            final(self).spec_rows() == old(self).spec_rows().push(row@),
    {
        let ghost rv = row@;
        self.rows.push(row);
        proof {
            assert(self.spec_rows() =~= old(self).spec_rows().push(rv));
        }
    }

    /// The rows a request bound to `tenant_id` retrieves: each matching row,
    /// in table order, and nothing else.
    pub fn visible_to(&self, tenant_id: &str) -> (r: Vec<ScopedRow>)
        ensures
            r.deep_view() == spec_visible(self.spec_rows(), tenant_id@),
    {
        broadcast use group_filter_ensures;

        let ghost pred = |row: ScopedRowView| row.tenant_id == tenant_id@;
        let n = self.rows.len();
        let mut out: Vec<ScopedRow> = Vec::new();
        let mut i: usize = 0;
        proof {
            assert(self.spec_rows().take(0) =~= Seq::<ScopedRowView>::empty());
            reveal_with_fuel(Seq::filter, 2);
        }
        while i < n
            invariant
                n == self.rows@.len(),
                0 <= i <= n,
                pred == (|row: ScopedRowView| row.tenant_id == tenant_id@),
                out.deep_view() =~= self.spec_rows().take(i as int).filter(pred),
            decreases n - i,
        {
            let row = &self.rows[i];
            if str_eq(row.tenant_id.as_str(), tenant_id) {
                let copy = ScopedRow {
                    tenant_id: row.tenant_id.clone(),
                    id: row.id.clone(),
                    payload: row.payload.clone(),
                };
                out.push(copy);
            }
            proof {
                reveal_with_fuel(Seq::filter, 2);
                let prefix = self.spec_rows().take(i as int);
                let one = seq![self.spec_rows()[i as int]];
                assert(self.spec_rows().take(i as int + 1) =~= prefix + one);
                Seq::filter_distributes_over_add(prefix, one, pred);
                assert(one.filter(pred) =~= if pred(self.spec_rows()[i as int]) {
                    one
                } else {
                    Seq::empty()
                });
                assert(out.deep_view() =~= self.spec_rows().take(i as int + 1).filter(pred));
            }
            i = i + 1;
        }
        proof {
            assert(self.spec_rows().take(n as int) =~= self.spec_rows());
        }
        out
    }

    /// Looks a row up by key, as a request bound to `tenant_id`: the row
    /// comes back only when it exists and belongs to that tenant. A guessed
    /// key of another tenant's row yields nothing.
    pub fn find(&self, tenant_id: &str, id: &str) -> (r: Option<&ScopedRow>)
        ensures
            match r {
                Some(row) => row@.tenant_id == tenant_id@ && row@.id == id@ && self.spec_rows(
                ).contains(row@),
                None => forall|j: int|
                    0 <= j < self.spec_rows().len() ==> !(#[trigger] self.spec_rows()[j].tenant_id
                        == tenant_id@ && self.spec_rows()[j].id == id@),
            },
    {
        let n = self.rows.len();
        let mut i: usize = 0;
        while i < n
            invariant
                n == self.rows@.len(),
                0 <= i <= n,
                forall|j: int|
                    0 <= j < i ==> !(#[trigger] self.spec_rows()[j].tenant_id == tenant_id@
                        && self.spec_rows()[j].id == id@),
            decreases n - i,
        {
            let row = &self.rows[i];
            if str_eq(row.tenant_id.as_str(), tenant_id) && str_eq(row.id.as_str(), id) {
                proof {
                    assert(self.spec_rows()[i as int] == row@);
                }
                return Some(&self.rows[i]);
            }
            i = i + 1;
        }
        None
    }
}

/// Cross-tenant isolation: whatever rows a request bound to tenant `a`
/// retrieves, none of them belongs to a different tenant `b` — a guessed or
/// enumerated key changes nothing, since every visible row carries `a` in
/// its tenant column.
pub proof fn lemma_cross_tenant_isolation(
    rows: Seq<ScopedRowView>,
    a: Seq<char>,
    b: Seq<char>,
)
    requires
        a != b,
    ensures
        forall|i: int|
            0 <= i < spec_visible(rows, a).len() ==> (#[trigger] spec_visible(rows, a)[i]).tenant_id
                != b,
{
    broadcast use group_filter_ensures;

    assert forall|i: int|
        0 <= i < spec_visible(rows, a).len() implies (#[trigger] spec_visible(rows, a)[i]).tenant_id
        != b by {
        rows.lemma_filter_pred(|r: ScopedRowView| r.tenant_id == a, i);
    }
}

} // verus!
