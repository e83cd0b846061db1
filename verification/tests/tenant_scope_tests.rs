use tenauth::tenant_scope::ScopedRow;
use tenauth::tenant_scope::TenantScopedTable;
use tenauth::tenant_scope::tenant_binding;

fn row(tenant: &str, id: &str, payload: &str) -> ScopedRow {
    ScopedRow {
        tenant_id: tenant.to_string(),
        id: id.to_string(),
        payload: payload.to_string(),
    }
}

#[test]
fn three_records_stay_inside_their_tenants() {
    let mut table = TenantScopedTable::new();
    table.insert(row("tenant-a", "r1", "alpha"));
    table.insert(row("tenant-b", "r2", "beta"));
    table.insert(row("tenant-a", "r3", "gamma"));

    let visible_a = table.visible_to("tenant-a");
    assert_eq!(visible_a.len(), 2);
    assert!(visible_a.iter().all(|r| r.tenant_id == "tenant-a"));
    assert_eq!(visible_a[0].payload, "alpha");
    assert_eq!(visible_a[1].payload, "gamma");

    let visible_b = table.visible_to("tenant-b");
    assert_eq!(visible_b.len(), 1);
    assert_eq!(visible_b[0].id, "r2");
}

#[test]
fn guessed_key_of_another_tenant_yields_nothing() {
    let mut table = TenantScopedTable::new();
    table.insert(row("tenant-a", "r1", "alpha"));
    table.insert(row("tenant-b", "r2", "beta"));

    // Tenant A addresses tenant B's row by its exact key: nothing comes back.
    assert!(table.find("tenant-a", "r2").is_none());
    assert!(table.find("tenant-b", "r1").is_none());

    let own = table.find("tenant-a", "r1").unwrap();
    assert_eq!(own.payload, "alpha");
}

#[test]
fn binding_statement_is_transaction_local() {
    let binding = tenant_binding("tenant-a");
    assert_eq!(
        binding.statement,
        "SELECT set_config('app.current_tenant_id', $1, true)"
    );
    assert_eq!(binding.parameter, "tenant-a");
}
