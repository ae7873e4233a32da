//! Plan-limit enforcement in cloud mode.
use vstd::prelude::*;

verus! {

/// Whether a tenant may ingest more events under its plan.
#[derive(Clone, Copy, Debug, PartialEq, Eq, Structural)]
pub enum BillingOutcome {
    Allowed,
    LimitExceeded,
}

/// A plan-limit check, supplied by the deployment (self-hosted servers use
/// [`NullBillingGate`]).
pub trait BillingGate {
    /// Decides whether the tenant may ingest more events.
    fn check(&self, tenant_id: &str) -> BillingOutcome;
}

/// Billing gate that allows everything.
#[derive(Clone, Copy, Debug)]
pub struct NullBillingGate;

impl NullBillingGate {
    /// Allows every tenant.
    pub fn allows(&self, tenant_id: &str) -> (o: BillingOutcome)
        ensures
            o == BillingOutcome::Allowed,
    {
        BillingOutcome::Allowed
    }
}

impl BillingGate for NullBillingGate {
    /// Allows every tenant.
    fn check(&self, tenant_id: &str) -> (o: BillingOutcome)
        ensures
            o == BillingOutcome::Allowed,
    {
        self.allows(tenant_id)
    }
}

} // verus!
