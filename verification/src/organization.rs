//! Tenant settings: what an update of the organization changes, and who
//! may change it.
use vstd::prelude::*;
use vstd::string::*;

use crate::errors::AppError;
use crate::text::{byte_len_spec, str_eq, trim, trim_spec};

verus! {

/// Body of `PUT /organization`: both fields optional, for incremental updates.
#[derive(Debug)]
pub struct UpdateOrganizationPayload {
    pub name: Option<String>,
    pub onboarded: Option<bool>,
}

/// The fields an update writes; an absent field is left as it is.
#[derive(Debug)]
pub struct OrgPatch {
    pub name: Option<String>,
    pub onboarded: Option<bool>,
}

/// What an update of the organization does.
#[derive(Debug)]
pub enum OrgUpdate {
    /// Nothing to change: answer with the current settings.
    Fetch,
    /// Write these fields and answer with the updated settings.
    Patch(OrgPatch),
}

/// The error with which an update by a user of role `role` is refused, if
/// any: a new name must be 1 to 200 bytes once trimmed, and only the owner
/// may rename the organization.
pub open spec fn org_update_error(name: Option<Seq<char>>, role: Seq<char>) -> Option<(bool, Seq<char>)> {
    match name {
        Some(n) => if trim_spec(n).len() == 0 || byte_len_spec(trim_spec(n)) > 200 {
            Some((true, "name must be 1–200 characters"@))
        } else if role != "owner"@ {
            Some((false, "Only the organization owner can change the name"@))
        } else {
            None
        },
        None => None,
    }
}

/// Decide an update of the organization by a user of role `role`.
/// A `true` first component of the refusal is a `BadRequest`, `false` an
/// `Unauthorized`.
pub fn plan_org_update(payload: &UpdateOrganizationPayload, role: &str) -> (r: Result<OrgUpdate, AppError>)
    ensures
        match org_update_error(match payload.name { Some(n) => Some(n@), None => None }, role@) {
            Some((true, m)) => r matches Err(AppError::BadRequest(x)) && x@ == m,
            Some((false, m)) => r matches Err(AppError::Unauthorized(x)) && x@ == m,
            None => if payload.name is None && payload.onboarded is None {
                r matches Ok(OrgUpdate::Fetch)
            } else {
                r matches Ok(OrgUpdate::Patch(p)) && {
                    &&& p.onboarded == payload.onboarded
                    &&& match payload.name {
                        Some(n) => p.name matches Some(pn) && pn@ == trim_spec(n@),
                        None => p.name is None,
                    }
                }
            },
        },
{
    let mut name: Option<String> = None;
    if let Some(n) = &payload.name {
        let t = trim(n.as_str());
        if t.as_str().unicode_len() == 0 || t.as_str().len() > 200 {
            return Err(AppError::BadRequest(String::from_str("name must be 1–200 characters")));
        }
        if !str_eq(role, "owner") {
            return Err(
                AppError::Unauthorized(
                    String::from_str("Only the organization owner can change the name"),
                ),
            );
        }
        name = Some(t);
    }
    if name.is_none() && payload.onboarded.is_none() {
        return Ok(OrgUpdate::Fetch);
    }
    Ok(OrgUpdate::Patch(OrgPatch { name, onboarded: payload.onboarded }))
}

/// The organizations-table filter of the caller's organization.
pub fn organization_filter(organization_id: &str) -> (r: String)
    ensures
        r@ == "id=eq."@ + organization_id@,
{
    let mut r = String::from_str("id=eq.");
    r.append(organization_id);
    r
}

/// Only the owner renames: whatever an update by a user who is not the
/// owner asks, it changes no name.
pub proof fn lemma_only_owner_renames(name: Seq<char>, role: Seq<char>)
    requires
        role != "owner"@,
    ensures
        org_update_error(Some(name), role) is Some,
{
}


/// Any member may complete onboarding: an update that sets no name is
/// never refused, whatever the caller's role.
pub proof fn lemma_any_member_onboards(role: Seq<char>)
    ensures
        org_update_error(None, role) is None,
{
}

} // verus!
