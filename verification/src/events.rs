//! Domain events raised by the authentication flows.

use vstd::prelude::*;

verus! {

#[derive(Debug, Clone, Copy, PartialEq, Eq, Structural)]
pub enum DomainEvent {
    UserRegistered,
    TenantCreated,
}

impl DomainEvent {
    /// The stable name of each event.
    pub open spec fn spec_name(&self) -> Seq<char> {
        match self {
            DomainEvent::UserRegistered => "UserRegistered"@,
            DomainEvent::TenantCreated => "TenantCreated"@,
        }
    }

    pub fn name(&self) -> (r: &'static str)
        ensures
            r@ == self.spec_name(),
    {
        match self {
            DomainEvent::UserRegistered => "UserRegistered",
            DomainEvent::TenantCreated => "TenantCreated",
        }
    }
}

} // verus!
