//! Tenants, sponsors and the KPI cards.
use vstd::prelude::*;

verus! {

/// Tenant-level branding and onboarding state.  `onboarded` gates access to
/// the main app: until it is set the user is sent to the onboarding wizard.
#[derive(Debug)]
pub struct OrganizationSettings {
    pub id: String,
    pub name: String,
    pub onboarded: bool,
}

/// A fund sponsor (general partner).
#[derive(Debug)]
pub struct Sponsor {
    pub id: String,
    pub organization_id: String,
    pub name: String,
    pub initials: String,
    pub country: String,
    pub color: String,
}

/// A top-level KPI card.
#[derive(Debug)]
pub struct Kpi {
    pub label: String,
    pub value: String,
    /// "white", "orange" or "purple".
    pub color: String,
}

} // verus!
