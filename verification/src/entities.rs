//! Legal entities: normalisation of a submitted entity and validation of its
//! identity and KYC fields.
//!
//! An entity's ownership percentages and NAV are floating-point numbers; the
//! checks on them are made by the caller and handed in as booleans, so that
//! every other rule, and the order in which the rules are applied, is stated
//! and proved here.
use vstd::prelude::*;
use vstd::string::*;

use crate::errors::{is_bad_request, AppError};
use crate::text::{
    all_ascii, ascii_upper_seq, byte_len_spec, decimal, decimal_string, is_ascii_digit,
    is_ascii_upper, is_ws, lemma_trim_idempotent, lemma_trim_no_ws, str_eq, to_uppercase, trim,
    trim_spec, upper_case,
};

verus! {

/// A beneficial owner or control person, without the ownership share.
#[derive(Debug)]
pub struct OwnerProfile {
    pub name: String,
    pub role: Option<String>,
}

pub struct OwnerView {
    pub name: Seq<char>,
    pub role: Option<Seq<char>>,
}

impl View for OwnerProfile {
    type V = OwnerView;

    open spec fn view(&self) -> OwnerView {
        OwnerView { name: self.name@, role: opt_str(self.role) }
    }
}

/// The text fields of an entity submitted by a client: its name, its short
/// code, the optional KYC fields and its beneficial owners.
#[derive(Debug)]
pub struct EntityProfile {
    pub name: String,
    pub short: String,
    pub entity_type: Option<String>,
    pub jurisdiction_country: Option<String>,
    pub jurisdiction_state: Option<String>,
    pub formation_date: Option<String>,
    pub tax_id: Option<String>,
    pub registration_number: Option<String>,
    pub status: Option<String>,
    pub address_street: Option<String>,
    pub address_city: Option<String>,
    pub address_state: Option<String>,
    pub address_postal_code: Option<String>,
    pub address_country: Option<String>,
    pub contact_name: Option<String>,
    pub contact_title: Option<String>,
    pub contact_email: Option<String>,
    pub contact_phone: Option<String>,
    pub website: Option<String>,
    pub tax_classification: Option<String>,
    pub fatca_status: Option<String>,
    pub kyc_verified_date: Option<String>,
    pub kyc_verified_by: Option<String>,
    pub risk_rating: Option<String>,
    pub base_currency: Option<String>,
    pub source_of_wealth: Option<String>,
    pub notes: Option<String>,
    pub beneficial_owners: Vec<OwnerProfile>,
}

pub struct EntityProfileView {
    pub name: Seq<char>,
    pub short: Seq<char>,
    pub entity_type: Option<Seq<char>>,
    pub jurisdiction_country: Option<Seq<char>>,
    pub jurisdiction_state: Option<Seq<char>>,
    pub formation_date: Option<Seq<char>>,
    pub tax_id: Option<Seq<char>>,
    pub registration_number: Option<Seq<char>>,
    pub status: Option<Seq<char>>,
    pub address_street: Option<Seq<char>>,
    pub address_city: Option<Seq<char>>,
    pub address_state: Option<Seq<char>>,
    pub address_postal_code: Option<Seq<char>>,
    pub address_country: Option<Seq<char>>,
    pub contact_name: Option<Seq<char>>,
    pub contact_title: Option<Seq<char>>,
    pub contact_email: Option<Seq<char>>,
    pub contact_phone: Option<Seq<char>>,
    pub website: Option<Seq<char>>,
    pub tax_classification: Option<Seq<char>>,
    pub fatca_status: Option<Seq<char>>,
    pub kyc_verified_date: Option<Seq<char>>,
    pub kyc_verified_by: Option<Seq<char>>,
    pub risk_rating: Option<Seq<char>>,
    pub base_currency: Option<Seq<char>>,
    pub source_of_wealth: Option<Seq<char>>,
    pub notes: Option<Seq<char>>,
    pub beneficial_owners: Seq<OwnerView>,
}

impl View for EntityProfile {
    type V = EntityProfileView;

    open spec fn view(&self) -> EntityProfileView {
        EntityProfileView {
            name: self.name@,
            short: self.short@,
            entity_type: opt_str(self.entity_type),
            jurisdiction_country: opt_str(self.jurisdiction_country),
            jurisdiction_state: opt_str(self.jurisdiction_state),
            formation_date: opt_str(self.formation_date),
            tax_id: opt_str(self.tax_id),
            registration_number: opt_str(self.registration_number),
            status: opt_str(self.status),
            address_street: opt_str(self.address_street),
            address_city: opt_str(self.address_city),
            address_state: opt_str(self.address_state),
            address_postal_code: opt_str(self.address_postal_code),
            address_country: opt_str(self.address_country),
            contact_name: opt_str(self.contact_name),
            contact_title: opt_str(self.contact_title),
            contact_email: opt_str(self.contact_email),
            contact_phone: opt_str(self.contact_phone),
            website: opt_str(self.website),
            tax_classification: opt_str(self.tax_classification),
            fatca_status: opt_str(self.fatca_status),
            kyc_verified_date: opt_str(self.kyc_verified_date),
            kyc_verified_by: opt_str(self.kyc_verified_by),
            risk_rating: opt_str(self.risk_rating),
            base_currency: opt_str(self.base_currency),
            source_of_wealth: opt_str(self.source_of_wealth),
            notes: opt_str(self.notes),
            beneficial_owners: self.beneficial_owners@.map_values(|o: OwnerProfile| o@),
        }
    }
}

pub open spec fn opt_str(v: Option<String>) -> Option<Seq<char>> {
    match v {
        Some(s) => Some(s@),
        None => None,
    }
}

/// An optional text trimmed, and absent when nothing is left.
pub open spec fn norm_spec(v: Option<Seq<char>>) -> Option<Seq<char>> {
    match v {
        Some(s) => if trim_spec(s).len() == 0 { None } else { Some(trim_spec(s)) },
        None => None,
    }
}

/// A beneficial owner as it is stored: name trimmed, role normalised.
pub open spec fn normalised_owner(o: OwnerView) -> OwnerView {
    OwnerView { name: trim_spec(o.name), role: norm_spec(o.role) }
}

/// An entity as it is stored: name trimmed, short code trimmed and upper-cased,
/// every optional field trimmed and dropped when empty, owners normalised.
pub open spec fn normalised(e: EntityProfileView) -> EntityProfileView {
    EntityProfileView {
        name: trim_spec(e.name),
        short: upper_case(trim_spec(e.short)),
        entity_type: norm_spec(e.entity_type),
        jurisdiction_country: norm_spec(e.jurisdiction_country),
        jurisdiction_state: norm_spec(e.jurisdiction_state),
        formation_date: norm_spec(e.formation_date),
        tax_id: norm_spec(e.tax_id),
        registration_number: norm_spec(e.registration_number),
        status: norm_spec(e.status),
        address_street: norm_spec(e.address_street),
        address_city: norm_spec(e.address_city),
        address_state: norm_spec(e.address_state),
        address_postal_code: norm_spec(e.address_postal_code),
        address_country: norm_spec(e.address_country),
        contact_name: norm_spec(e.contact_name),
        contact_title: norm_spec(e.contact_title),
        contact_email: norm_spec(e.contact_email),
        contact_phone: norm_spec(e.contact_phone),
        website: norm_spec(e.website),
        tax_classification: norm_spec(e.tax_classification),
        fatca_status: norm_spec(e.fatca_status),
        kyc_verified_date: norm_spec(e.kyc_verified_date),
        kyc_verified_by: norm_spec(e.kyc_verified_by),
        risk_rating: norm_spec(e.risk_rating),
        base_currency: norm_spec(e.base_currency),
        source_of_wealth: norm_spec(e.source_of_wealth),
        notes: norm_spec(e.notes),
        beneficial_owners: e.beneficial_owners.map_values(|o: OwnerView| normalised_owner(o)),
    }
}

pub open spec fn entity_statuses() -> Seq<Seq<char>> {
    seq!["Active"@, "Dormant"@, "Dissolved"@]
}

pub open spec fn risk_ratings() -> Seq<Seq<char>> {
    seq!["Low"@, "Medium"@, "High"@]
}

pub open spec fn fatca_statuses() -> Seq<Seq<char>> {
    seq!["US Person"@, "Active NFFE"@, "Passive NFFE"@, "FFI"@, "N/A"@]
}

pub open spec fn tax_classifications() -> Seq<Seq<char>> {
    seq!["Pass-through"@, "Corporation"@, "Foreign"@, "Tax-exempt"@, "Other"@]
}

/// A capped field fails when it is present and longer than `max` bytes.
pub open spec fn cap_fails(v: Option<Seq<char>>, max: usize) -> bool {
    v matches Some(s) && byte_len_spec(s) > max
}

/// An enumerated field fails when it is present, non-empty and not allowed.
pub open spec fn enum_fails(v: Option<Seq<char>>, allowed: Seq<Seq<char>>) -> bool {
    v matches Some(s) && s.len() > 0 && !allowed.contains(s)
}

/// The message of the first KYC field check that `e` fails, if any.
pub open spec fn kyc_field_error(e: EntityProfileView) -> Option<Seq<char>> {
    if cap_fails(e.entity_type, 200) {
        Some("entity_type must be at most 200 characters"@)
    } else if cap_fails(e.jurisdiction_country, 200) {
        Some("jurisdiction_country must be at most 200 characters"@)
    } else if cap_fails(e.jurisdiction_state, 200) {
        Some("jurisdiction_state must be at most 200 characters"@)
    } else if cap_fails(e.formation_date, 32) {
        Some("formation_date must be at most 32 characters"@)
    } else if cap_fails(e.tax_id, 64) {
        Some("tax_id must be at most 64 characters"@)
    } else if cap_fails(e.registration_number, 128) {
        Some("registration_number must be at most 128 characters"@)
    } else if enum_fails(e.status, entity_statuses()) {
        Some("status must be one of: Active, Dormant, Dissolved"@)
    } else if cap_fails(e.address_street, 200) {
        Some("address_street must be at most 200 characters"@)
    } else if cap_fails(e.address_city, 200) {
        Some("address_city must be at most 200 characters"@)
    } else if cap_fails(e.address_state, 200) {
        Some("address_state must be at most 200 characters"@)
    } else if cap_fails(e.address_postal_code, 32) {
        Some("address_postal_code must be at most 32 characters"@)
    } else if cap_fails(e.address_country, 200) {
        Some("address_country must be at most 200 characters"@)
    } else if cap_fails(e.contact_name, 200) {
        Some("contact_name must be at most 200 characters"@)
    } else if cap_fails(e.contact_title, 200) {
        Some("contact_title must be at most 200 characters"@)
    } else if cap_fails(e.contact_email, 200) {
        Some("contact_email must be at most 200 characters"@)
    } else if cap_fails(e.contact_phone, 64) {
        Some("contact_phone must be at most 64 characters"@)
    } else if cap_fails(e.website, 200) {
        Some("website must be at most 200 characters"@)
    } else if enum_fails(e.tax_classification, tax_classifications()) {
        Some("tax_classification must be one of: Pass-through, Corporation, Foreign, Tax-exempt, Other"@)
    } else if enum_fails(e.fatca_status, fatca_statuses()) {
        Some("fatca_status must be one of: US Person, Active NFFE, Passive NFFE, FFI, N/A"@)
    } else if cap_fails(e.kyc_verified_date, 32) {
        Some("kyc_verified_date must be at most 32 characters"@)
    } else if cap_fails(e.kyc_verified_by, 200) {
        Some("kyc_verified_by must be at most 200 characters"@)
    } else if enum_fails(e.risk_rating, risk_ratings()) {
        Some("risk_rating must be one of: Low, Medium, High"@)
    } else if cap_fails(e.base_currency, 8) {
        Some("base_currency must be at most 8 characters"@)
    } else if cap_fails(e.source_of_wealth, 4000) {
        Some("source_of_wealth must be at most 4000 characters"@)
    } else if cap_fails(e.notes, 4000) {
        Some("notes must be at most 4000 characters"@)
    } else {
        None
    }
}

/// The message of the first check that owner `o`, at position `i`, fails;
/// `pct_ok` says whether its ownership share is a finite number in 0..=100.
pub open spec fn owner_error(o: OwnerView, pct_ok: bool, i: nat) -> Option<Seq<char>> {
    if trim_spec(o.name).len() == 0 || byte_len_spec(trim_spec(o.name)) > 200 {
        Some("beneficial_owners["@ + decimal(i) + "].name must be 1–200 characters"@)
    } else if !pct_ok {
        Some("beneficial_owners["@ + decimal(i) + "].ownership_pct must be between 0 and 100"@)
    } else if o.role matches Some(r) && byte_len_spec(r) > 200 {
        Some("beneficial_owners["@ + decimal(i) + "].role must be at most 200 characters"@)
    } else {
        None
    }
}

/// The error of the first owner, from position `i` on, that fails a check.
pub open spec fn owners_error_from(owners: Seq<OwnerView>, pct_ok: Seq<bool>, i: nat) -> Option<Seq<char>>
    decreases owners.len() - i,
{
    if i >= owners.len() {
        None
    } else {
        match owner_error(owners[i as int], pct_ok[i as int], i) {
            Some(m) => Some(m),
            None => owners_error_from(owners, pct_ok, i + 1),
        }
    }
}

/// The message `validate_kyc` fails with, if any.  `over_total` is the
/// one-decimal rendering of the owners' total share when that total exceeds
/// 100.5, and `None` otherwise.
pub open spec fn kyc_error(e: EntityProfileView, pct_ok: Seq<bool>, over_total: Option<Seq<char>>) -> Option<Seq<char>> {
    match kyc_field_error(e) {
        Some(m) => Some(m),
        None => match owners_error_from(e.beneficial_owners, pct_ok, 0) {
            Some(m) => Some(m),
            None => if e.beneficial_owners.len() > 0 && over_total is Some {
                Some("beneficial_owners ownership total ("@ + over_total->0 + "%) exceeds 100%"@)
            } else {
                None
            },
        },
    }
}

/// A valid short code: 2 to 6 bytes, each an ASCII upper-case letter or digit.
pub open spec fn valid_short(s: Seq<char>) -> bool {
    &&& 2 <= byte_len_spec(s) <= 6
    &&& forall|i: int| 0 <= i < s.len() ==> is_ascii_upper(#[trigger] s[i]) || is_ascii_digit(s[i])
}

/// The message with which an entity submission is refused, if any: the name,
/// the short code, the NAV (`nav_ok`: finite and non-negative), then KYC.
pub open spec fn entity_error(e: EntityProfileView, nav_ok: bool, pct_ok: Seq<bool>, over_total: Option<Seq<char>>) -> Option<Seq<char>> {
    if e.name.len() == 0 || byte_len_spec(e.name) > 200 {
        Some("name must be 1–200 characters"@)
    } else if !valid_short(e.short) {
        Some("short must be 2–6 uppercase letters or digits"@)
    } else if !nav_ok {
        Some("nav must be a finite, non-negative number"@)
    } else {
        kyc_error(e, pct_ok, over_total)
    }
}

fn is_entity_status(s: &str) -> (r: bool)
    ensures
        r == entity_statuses().contains(s@),
{
    proof {
        reveal_strlit("Active");
    }
    proof {
        reveal_strlit("Dormant");
    }
    proof {
        reveal_strlit("Dissolved");
    }
    let r = str_eq(s, "Active") || str_eq(s, "Dormant") || str_eq(s, "Dissolved");
    proof {
        if entity_statuses().contains(s@) {
            let k = choose|k: int| 0 <= k < entity_statuses().len() && entity_statuses()[k] == s@;
            assert(0 <= k < 3);
        }
        if r {
            if s@ == "Active"@ {
                assert(entity_statuses()[0] == s@);
            }
            if s@ == "Dormant"@ {
                assert(entity_statuses()[1] == s@);
            }
            if s@ == "Dissolved"@ {
                assert(entity_statuses()[2] == s@);
            }
        }
    }
    r
}

fn is_risk_rating(s: &str) -> (r: bool)
    ensures
        r == risk_ratings().contains(s@),
{
    proof {
        reveal_strlit("Low");
    }
    proof {
        reveal_strlit("Medium");
    }
    proof {
        reveal_strlit("High");
    }
    let r = str_eq(s, "Low") || str_eq(s, "Medium") || str_eq(s, "High");
    proof {
        if risk_ratings().contains(s@) {
            let k = choose|k: int| 0 <= k < risk_ratings().len() && risk_ratings()[k] == s@;
            assert(0 <= k < 3);
        }
        if r {
            if s@ == "Low"@ {
                assert(risk_ratings()[0] == s@);
            }
            if s@ == "Medium"@ {
                assert(risk_ratings()[1] == s@);
            }
            if s@ == "High"@ {
                assert(risk_ratings()[2] == s@);
            }
        }
    }
    r
}

fn is_fatca_status(s: &str) -> (r: bool)
    ensures
        r == fatca_statuses().contains(s@),
{
    proof {
        reveal_strlit("US Person");
    }
    proof {
        reveal_strlit("Active NFFE");
    }
    proof {
        reveal_strlit("Passive NFFE");
    }
    proof {
        reveal_strlit("FFI");
    }
    proof {
        reveal_strlit("N/A");
    }
    let r = str_eq(s, "US Person") || str_eq(s, "Active NFFE") || str_eq(s, "Passive NFFE") || str_eq(s, "FFI") || str_eq(s, "N/A");
    proof {
        if fatca_statuses().contains(s@) {
            let k = choose|k: int| 0 <= k < fatca_statuses().len() && fatca_statuses()[k] == s@;
            assert(0 <= k < 5);
        }
        if r {
            if s@ == "US Person"@ {
                assert(fatca_statuses()[0] == s@);
            }
            if s@ == "Active NFFE"@ {
                assert(fatca_statuses()[1] == s@);
            }
            if s@ == "Passive NFFE"@ {
                assert(fatca_statuses()[2] == s@);
            }
            if s@ == "FFI"@ {
                assert(fatca_statuses()[3] == s@);
            }
            if s@ == "N/A"@ {
                assert(fatca_statuses()[4] == s@);
            }
        }
    }
    r
}

fn is_tax_classification(s: &str) -> (r: bool)
    ensures
        r == tax_classifications().contains(s@),
{
    proof {
        reveal_strlit("Pass-through");
    }
    proof {
        reveal_strlit("Corporation");
    }
    proof {
        reveal_strlit("Foreign");
    }
    proof {
        reveal_strlit("Tax-exempt");
    }
    proof {
        reveal_strlit("Other");
    }
    let r = str_eq(s, "Pass-through") || str_eq(s, "Corporation") || str_eq(s, "Foreign") || str_eq(s, "Tax-exempt") || str_eq(s, "Other");
    proof {
        if tax_classifications().contains(s@) {
            let k = choose|k: int| 0 <= k < tax_classifications().len() && tax_classifications()[k] == s@;
            assert(0 <= k < 5);
        }
        if r {
            if s@ == "Pass-through"@ {
                assert(tax_classifications()[0] == s@);
            }
            if s@ == "Corporation"@ {
                assert(tax_classifications()[1] == s@);
            }
            if s@ == "Foreign"@ {
                assert(tax_classifications()[2] == s@);
            }
            if s@ == "Tax-exempt"@ {
                assert(tax_classifications()[3] == s@);
            }
            if s@ == "Other"@ {
                assert(tax_classifications()[4] == s@);
            }
        }
    }
    r
}

/// `Err(BadRequest(msg))` when `v` is present and longer than `max` bytes.
fn capped(v: &Option<String>, max: usize, msg: &str) -> (r: Result<(), AppError>)
    ensures
        cap_fails(opt_str(*v), max) ==> is_bad_request(r->Err_0, msg@) && r is Err,
        !cap_fails(opt_str(*v), max) ==> r is Ok,
{
    match v {
        Some(s) => if s.as_str().len() > max {
            Err(AppError::BadRequest(String::from_str(msg)))
        } else {
            Ok(())
        },
        None => Ok(()),
    }
}

/// Check every optional KYC field and every beneficial owner of `entity`.
/// `pct_ok[i]` says whether owner `i`'s share is a finite number in 0..=100;
/// `over_total` is the one-decimal rendering of the owners' total share when
/// that total exceeds 100.5.
pub fn validate_kyc(entity: &EntityProfile, pct_ok: &Vec<bool>, over_total: &Option<String>) -> (r: Result<(), AppError>)
    requires
        pct_ok@.len() == entity.beneficial_owners@.len(),
    ensures
        match kyc_error(entity@, pct_ok@, opt_str(*over_total)) {
            Some(m) => r matches Err(AppError::BadRequest(x)) && x@ == m,
            None => r is Ok,
        },
{
    let m = "entity_type must be at most 200 characters";
    proof {
        reveal_strlit("entity_type must be at most 200 characters");
    }
    capped(&entity.entity_type, 200, m)?;
    let m = "jurisdiction_country must be at most 200 characters";
    proof {
        reveal_strlit("jurisdiction_country must be at most 200 characters");
    }
    capped(&entity.jurisdiction_country, 200, m)?;
    let m = "jurisdiction_state must be at most 200 characters";
    proof {
        reveal_strlit("jurisdiction_state must be at most 200 characters");
    }
    capped(&entity.jurisdiction_state, 200, m)?;
    let m = "formation_date must be at most 32 characters";
    proof {
        reveal_strlit("formation_date must be at most 32 characters");
    }
    capped(&entity.formation_date, 32, m)?;
    let m = "tax_id must be at most 64 characters";
    proof {
        reveal_strlit("tax_id must be at most 64 characters");
    }
    capped(&entity.tax_id, 64, m)?;
    let m = "registration_number must be at most 128 characters";
    proof {
        reveal_strlit("registration_number must be at most 128 characters");
    }
    capped(&entity.registration_number, 128, m)?;
    if let Some(s) = &entity.status {
        if s.as_str().unicode_len() > 0 && !is_entity_status(s.as_str()) {
            let m = "status must be one of: Active, Dormant, Dissolved";
            proof {
                reveal_strlit("status must be one of: Active, Dormant, Dissolved");
            }
            return Err(AppError::BadRequest(String::from_str(m)));
        }
    }
    let m = "address_street must be at most 200 characters";
    proof {
        reveal_strlit("address_street must be at most 200 characters");
    }
    capped(&entity.address_street, 200, m)?;
    let m = "address_city must be at most 200 characters";
    proof {
        reveal_strlit("address_city must be at most 200 characters");
    }
    capped(&entity.address_city, 200, m)?;
    let m = "address_state must be at most 200 characters";
    proof {
        reveal_strlit("address_state must be at most 200 characters");
    }
    capped(&entity.address_state, 200, m)?;
    let m = "address_postal_code must be at most 32 characters";
    proof {
        reveal_strlit("address_postal_code must be at most 32 characters");
    }
    capped(&entity.address_postal_code, 32, m)?;
    let m = "address_country must be at most 200 characters";
    proof {
        reveal_strlit("address_country must be at most 200 characters");
    }
    capped(&entity.address_country, 200, m)?;
    let m = "contact_name must be at most 200 characters";
    proof {
        reveal_strlit("contact_name must be at most 200 characters");
    }
    capped(&entity.contact_name, 200, m)?;
    let m = "contact_title must be at most 200 characters";
    proof {
        reveal_strlit("contact_title must be at most 200 characters");
    }
    capped(&entity.contact_title, 200, m)?;
    let m = "contact_email must be at most 200 characters";
    proof {
        reveal_strlit("contact_email must be at most 200 characters");
    }
    capped(&entity.contact_email, 200, m)?;
    let m = "contact_phone must be at most 64 characters";
    proof {
        reveal_strlit("contact_phone must be at most 64 characters");
    }
    capped(&entity.contact_phone, 64, m)?;
    let m = "website must be at most 200 characters";
    proof {
        reveal_strlit("website must be at most 200 characters");
    }
    capped(&entity.website, 200, m)?;
    if let Some(s) = &entity.tax_classification {
        if s.as_str().unicode_len() > 0 && !is_tax_classification(s.as_str()) {
            let m = "tax_classification must be one of: Pass-through, Corporation, Foreign, Tax-exempt, Other";
            proof {
                reveal_strlit("tax_classification must be one of: Pass-through, Corporation, Foreign, Tax-exempt, Other");
            }
            return Err(AppError::BadRequest(String::from_str(m)));
        }
    }
    if let Some(s) = &entity.fatca_status {
        if s.as_str().unicode_len() > 0 && !is_fatca_status(s.as_str()) {
            let m = "fatca_status must be one of: US Person, Active NFFE, Passive NFFE, FFI, N/A";
            proof {
                reveal_strlit("fatca_status must be one of: US Person, Active NFFE, Passive NFFE, FFI, N/A");
            }
            return Err(AppError::BadRequest(String::from_str(m)));
        }
    }
    let m = "kyc_verified_date must be at most 32 characters";
    proof {
        reveal_strlit("kyc_verified_date must be at most 32 characters");
    }
    capped(&entity.kyc_verified_date, 32, m)?;
    let m = "kyc_verified_by must be at most 200 characters";
    proof {
        reveal_strlit("kyc_verified_by must be at most 200 characters");
    }
    capped(&entity.kyc_verified_by, 200, m)?;
    if let Some(s) = &entity.risk_rating {
        if s.as_str().unicode_len() > 0 && !is_risk_rating(s.as_str()) {
            let m = "risk_rating must be one of: Low, Medium, High";
            proof {
                reveal_strlit("risk_rating must be one of: Low, Medium, High");
            }
            return Err(AppError::BadRequest(String::from_str(m)));
        }
    }
    let m = "base_currency must be at most 8 characters";
    proof {
        reveal_strlit("base_currency must be at most 8 characters");
    }
    capped(&entity.base_currency, 8, m)?;
    let m = "source_of_wealth must be at most 4000 characters";
    proof {
        reveal_strlit("source_of_wealth must be at most 4000 characters");
    }
    capped(&entity.source_of_wealth, 4000, m)?;
    let m = "notes must be at most 4000 characters";
    proof {
        reveal_strlit("notes must be at most 4000 characters");
    }
    capped(&entity.notes, 4000, m)?;
    validate_owners(&entity.beneficial_owners, pct_ok)?;
    if entity.beneficial_owners.len() > 0 {
        if let Some(t) = over_total {
            let mut m = String::from_str("beneficial_owners ownership total (");
            m.append(t.as_str());
            m.append("%) exceeds 100%");
            return Err(AppError::BadRequest(m));
        }
    }
    Ok(())
}

proof fn lemma_owners_error_step(owners: Seq<OwnerView>, pct_ok: Seq<bool>, i: nat)
    requires
        i < owners.len(),
        owner_error(owners[i as int], pct_ok[i as int], i) is None,
    ensures
        owners_error_from(owners, pct_ok, i) == owners_error_from(owners, pct_ok, i + 1),
{
}

/// The error of the first owner that fails a check.
fn validate_owners(owners: &Vec<OwnerProfile>, pct_ok: &Vec<bool>) -> (r: Result<(), AppError>)
    requires
        pct_ok@.len() == owners@.len(),
    ensures
        match owners_error_from(owners@.map_values(|o: OwnerProfile| o@), pct_ok@, 0) {
            Some(m) => r matches Err(AppError::BadRequest(x)) && x@ == m,
            None => r is Ok,
        },
{
    let ghost views = owners@.map_values(|o: OwnerProfile| o@);
    let mut i: usize = 0;
    while i < owners.len()
        invariant
            0 <= i <= owners@.len(),
            pct_ok@.len() == owners@.len(),
            views == owners@.map_values(|o: OwnerProfile| o@),
            owners_error_from(views, pct_ok@, 0) == owners_error_from(views, pct_ok@, i as nat),
        decreases owners@.len() - i,
    {
        let o = &owners[i];
        assert(views[i as int] == o@);
        let name = trim(o.name.as_str());
        let idx = decimal_string(i as u64);
        if name.as_str().unicode_len() == 0 || name.as_str().len() > 200 {
            let mut m = String::from_str("beneficial_owners[");
            m.append(idx.as_str());
            m.append("].name must be 1–200 characters");
            return Err(AppError::BadRequest(m));
        }
        if !pct_ok[i] {
            let mut m = String::from_str("beneficial_owners[");
            m.append(idx.as_str());
            m.append("].ownership_pct must be between 0 and 100");
            return Err(AppError::BadRequest(m));
        }
        if let Some(role) = &o.role {
            if role.as_str().len() > 200 {
                let mut m = String::from_str("beneficial_owners[");
                m.append(idx.as_str());
                m.append("].role must be at most 200 characters");
                return Err(AppError::BadRequest(m));
            }
        }
        proof {
            lemma_owners_error_step(views, pct_ok@, i as nat);
        }
        i = i + 1;
    }
    Ok(())
}

/// `true` when `s` is a valid short code: 2 to 6 bytes, each an ASCII
/// upper-case letter or digit.
pub fn is_valid_short(s: &str) -> (r: bool)
    ensures
        r == valid_short(s@),
{
    let len = s.len();
    if len < 2 || len > 6 {
        return false;
    }
    let n = s.unicode_len();
    let mut i: usize = 0;
    while i < n
        invariant
            0 <= i <= n,
            n == s@.len(),
            forall|j: int| 0 <= j < i ==> is_ascii_upper(#[trigger] s@[j]) || is_ascii_digit(s@[j]),
        decreases n - i,
    {
        let c = s.get_char(i);
        if !(('A' <= c && c <= 'Z') || ('0' <= c && c <= '9')) {
            return false;
        }
        i = i + 1;
    }
    true
}

/// Trim an optional text, and drop it when nothing is left.
pub fn norm(v: Option<String>) -> (r: Option<String>)
    ensures
        opt_str(r) == norm_spec(opt_str(v)),
{
    match v {
        Some(s) => {
            let t = trim(s.as_str());
            if t.as_str().unicode_len() == 0 {
                None
            } else {
                Some(t)
            }
        },
        None => None,
    }
}

/// Put a submitted entity in its stored form: see [`normalised`].
pub fn normalise(entity: EntityProfile) -> (r: EntityProfile)
    ensures
        r@ == normalised(entity@),
{
    let mut owners: Vec<OwnerProfile> = Vec::new();
    let n = entity.beneficial_owners.len();
    let mut i: usize = 0;
    while i < n
        invariant
            0 <= i <= n,
            n == entity.beneficial_owners@.len(),
            owners@.len() == i,
            forall|j: int| 0 <= j < i ==> #[trigger] owners@[j]@ == normalised_owner(entity.beneficial_owners@[j]@),
        decreases n - i,
    {
        let o = &entity.beneficial_owners[i];
        let role = match &o.role {
            Some(r) => norm(Some(r.clone())),
            None => None,
        };
        owners.push(OwnerProfile { name: trim(o.name.as_str()), role });
        i = i + 1;
    }
    let short = trim(entity.short.as_str());
    let r = EntityProfile {
        name: trim(entity.name.as_str()),
        short: to_uppercase(short.as_str()),
        entity_type: norm(entity.entity_type),
        jurisdiction_country: norm(entity.jurisdiction_country),
        jurisdiction_state: norm(entity.jurisdiction_state),
        formation_date: norm(entity.formation_date),
        tax_id: norm(entity.tax_id),
        registration_number: norm(entity.registration_number),
        status: norm(entity.status),
        address_street: norm(entity.address_street),
        address_city: norm(entity.address_city),
        address_state: norm(entity.address_state),
        address_postal_code: norm(entity.address_postal_code),
        address_country: norm(entity.address_country),
        contact_name: norm(entity.contact_name),
        contact_title: norm(entity.contact_title),
        contact_email: norm(entity.contact_email),
        contact_phone: norm(entity.contact_phone),
        website: norm(entity.website),
        tax_classification: norm(entity.tax_classification),
        fatca_status: norm(entity.fatca_status),
        kyc_verified_date: norm(entity.kyc_verified_date),
        kyc_verified_by: norm(entity.kyc_verified_by),
        risk_rating: norm(entity.risk_rating),
        base_currency: norm(entity.base_currency),
        source_of_wealth: norm(entity.source_of_wealth),
        notes: norm(entity.notes),
        beneficial_owners: owners,
    };
    assert(r@.beneficial_owners =~= entity@.beneficial_owners.map_values(|o: OwnerView| normalised_owner(o)));
    r
}

/// Normalise a submitted entity and check it: name, short code, NAV
/// (`nav_ok`), then its KYC fields and owners (see [`validate_kyc`]).
/// Returns the entity in its stored form.
pub fn prepare_entity(entity: EntityProfile, nav_ok: bool, pct_ok: &Vec<bool>, over_total: &Option<String>) -> (r: Result<EntityProfile, AppError>)
    requires
        pct_ok@.len() == entity.beneficial_owners@.len(),
    ensures
        match entity_error(normalised(entity@), nav_ok, pct_ok@, opt_str(*over_total)) {
            Some(m) => r matches Err(AppError::BadRequest(x)) && x@ == m,
            None => r matches Ok(e) && e@ == normalised(entity@),
        },
        r matches Ok(e) ==> normalised(e@) == e@,
{
    let mut e = normalise(entity);
    assert(e.beneficial_owners@.len() == e@.beneficial_owners.len());
    if e.name.as_str().unicode_len() == 0 || e.name.as_str().len() > 200 {
        let m = "name must be 1–200 characters";
        proof {
            reveal_strlit("name must be 1–200 characters");
        }
        return Err(AppError::BadRequest(String::from_str(m)));
    }
    if !is_valid_short(e.short.as_str()) {
        let m = "short must be 2–6 uppercase letters or digits";
        proof {
            reveal_strlit("short must be 2–6 uppercase letters or digits");
        }
        return Err(AppError::BadRequest(String::from_str(m)));
    }
    if !nav_ok {
        let m = "nav must be a finite, non-negative number";
        proof {
            reveal_strlit("nav must be a finite, non-negative number");
        }
        return Err(AppError::BadRequest(String::from_str(m)));
    }
    validate_kyc(&e, pct_ok, over_total)?;
    // The accepted code is its own upper-case form: store it as upper-casing
    // gives it back, so that normalising the stored entity changes nothing.
    let ghost accepted = e@;
    let recased = to_uppercase(e.short.as_str());
    proof {
        lemma_valid_short_canonical(e.short@);
        lemma_normalise_stable(entity@);
    }
    e.short = recased;
    assert(e@ == accepted);
    Ok(e)
}

/// A valid short code is ASCII, free of whitespace and its own upper-case form.
proof fn lemma_valid_short_canonical(s: Seq<char>)
    requires
        valid_short(s),
    ensures
        all_ascii(s),
        ascii_upper_seq(s) == s,
        trim_spec(s) == s,
{
    assert(all_ascii(s)) by {
        assert forall|i: int| 0 <= i < s.len() implies (#[trigger] s[i] as u32) < 128 by {
            assert(is_ascii_upper(s[i]) || is_ascii_digit(s[i]));
        }
    }
    assert(ascii_upper_seq(s) =~= s);
    assert forall|i: int| 0 <= i < s.len() implies !is_ws(#[trigger] s[i]) by {
        assert(is_ascii_upper(s[i]) || is_ascii_digit(s[i]));
    }
    lemma_trim_no_ws(s);
}

/// Refuse to delete entity `entity_id` while `attached` funds refer to it.
pub fn entity_deletion_guard(entity_id: &str, attached: u64) -> (r: Result<(), AppError>)
    ensures
        attached == 0 ==> r is Ok,
        attached > 0 ==> (r matches Err(AppError::Conflict(m)) && m@ == "Cannot delete entity '"@
            + entity_id@ + "': "@ + decimal(attached as nat)
            + " fund(s) still reference it. Reassign or remove the attached funds first."@),
{
    if attached > 0 {
        let mut m = String::from_str("Cannot delete entity '");
        m.append(entity_id);
        m.append("': ");
        let n = decimal_string(attached);
        m.append(n.as_str());
        m.append(" fund(s) still reference it. Reassign or remove the attached funds first.");
        Err(AppError::Conflict(m))
    } else {
        Ok(())
    }
}

/// Trimming twice is trimming once, so normalising a stored entity's
/// optional fields changes nothing.
pub proof fn lemma_norm_idempotent(v: Option<Seq<char>>)
    ensures
        norm_spec(norm_spec(v)) == norm_spec(v),
{
    if let Some(s) = v {
        lemma_trim_idempotent(s);
    }
}

/// Normalising a stored entity again changes nothing but possibly its short
/// code, whose upper-casing is the standard library's: its name, optional
/// fields and owners stay as they are.
pub proof fn lemma_normalise_stable(e: EntityProfileView)
    ensures
        normalised(normalised(e)).name == normalised(e).name,
        normalised(normalised(e)).entity_type == normalised(e).entity_type,
        normalised(normalised(e)).jurisdiction_country == normalised(e).jurisdiction_country,
        normalised(normalised(e)).jurisdiction_state == normalised(e).jurisdiction_state,
        normalised(normalised(e)).formation_date == normalised(e).formation_date,
        normalised(normalised(e)).tax_id == normalised(e).tax_id,
        normalised(normalised(e)).registration_number == normalised(e).registration_number,
        normalised(normalised(e)).status == normalised(e).status,
        normalised(normalised(e)).address_street == normalised(e).address_street,
        normalised(normalised(e)).address_city == normalised(e).address_city,
        normalised(normalised(e)).address_state == normalised(e).address_state,
        normalised(normalised(e)).address_postal_code == normalised(e).address_postal_code,
        normalised(normalised(e)).address_country == normalised(e).address_country,
        normalised(normalised(e)).contact_name == normalised(e).contact_name,
        normalised(normalised(e)).contact_title == normalised(e).contact_title,
        normalised(normalised(e)).contact_email == normalised(e).contact_email,
        normalised(normalised(e)).contact_phone == normalised(e).contact_phone,
        normalised(normalised(e)).website == normalised(e).website,
        normalised(normalised(e)).tax_classification == normalised(e).tax_classification,
        normalised(normalised(e)).fatca_status == normalised(e).fatca_status,
        normalised(normalised(e)).kyc_verified_date == normalised(e).kyc_verified_date,
        normalised(normalised(e)).kyc_verified_by == normalised(e).kyc_verified_by,
        normalised(normalised(e)).risk_rating == normalised(e).risk_rating,
        normalised(normalised(e)).base_currency == normalised(e).base_currency,
        normalised(normalised(e)).source_of_wealth == normalised(e).source_of_wealth,
        normalised(normalised(e)).notes == normalised(e).notes,
        normalised(normalised(e)).beneficial_owners == normalised(e).beneficial_owners,
{
    lemma_trim_idempotent(e.name);
    lemma_norm_idempotent(e.entity_type);
    lemma_norm_idempotent(e.jurisdiction_country);
    lemma_norm_idempotent(e.jurisdiction_state);
    lemma_norm_idempotent(e.formation_date);
    lemma_norm_idempotent(e.tax_id);
    lemma_norm_idempotent(e.registration_number);
    lemma_norm_idempotent(e.status);
    lemma_norm_idempotent(e.address_street);
    lemma_norm_idempotent(e.address_city);
    lemma_norm_idempotent(e.address_state);
    lemma_norm_idempotent(e.address_postal_code);
    lemma_norm_idempotent(e.address_country);
    lemma_norm_idempotent(e.contact_name);
    lemma_norm_idempotent(e.contact_title);
    lemma_norm_idempotent(e.contact_email);
    lemma_norm_idempotent(e.contact_phone);
    lemma_norm_idempotent(e.website);
    lemma_norm_idempotent(e.tax_classification);
    lemma_norm_idempotent(e.fatca_status);
    lemma_norm_idempotent(e.kyc_verified_date);
    lemma_norm_idempotent(e.kyc_verified_by);
    lemma_norm_idempotent(e.risk_rating);
    lemma_norm_idempotent(e.base_currency);
    lemma_norm_idempotent(e.source_of_wealth);
    lemma_norm_idempotent(e.notes);
    let once = normalised(e).beneficial_owners;
    assert forall|i: int| 0 <= i < once.len() implies normalised_owner(#[trigger] once[i]) == once[i] by {
        lemma_trim_idempotent(e.beneficial_owners[i].name);
        lemma_norm_idempotent(e.beneficial_owners[i].role);
    }
    assert(once.map_values(|o: OwnerView| normalised_owner(o)) =~= once);
}


/// The entity status rule: a status that is absent, empty, `Active`,
/// `Dormant` or `Dissolved` never changes the verdict on the KYC fields
/// (it is judged as if no status were given), and any other status is
/// refused with the status message unless a field checked before it (entity
/// type, jurisdiction, formation date, tax id, registration number) already
/// failed.
pub proof fn lemma_status_rule(e: EntityProfileView, s: Seq<char>)
    ensures
        (s.len() == 0 || s == "Active"@ || s == "Dormant"@ || s == "Dissolved"@) ==>
            kyc_field_error(EntityProfileView { status: Some(s), ..e })
                == kyc_field_error(EntityProfileView { status: None, ..e }),
        !(s.len() == 0 || s == "Active"@ || s == "Dormant"@ || s == "Dissolved"@)
            && e.entity_type is None && e.jurisdiction_country is None
            && e.jurisdiction_state is None && e.formation_date is None && e.tax_id is None
            && e.registration_number is None ==>
            kyc_field_error(EntityProfileView { status: Some(s), ..e })
                == Some("status must be one of: Active, Dormant, Dissolved"@),
{
    let st = entity_statuses();
    assert(st[0] == "Active"@);
    assert(st[1] == "Dormant"@);
    assert(st[2] == "Dissolved"@);
    if s == "Active"@ || s == "Dormant"@ || s == "Dissolved"@ {
        assert(st.contains(s));
    }
    if st.contains(s) {
        let k = choose|k: int| 0 <= k < st.len() && st[k] == s;
        assert(k == 0 || k == 1 || k == 2);
    }
}

} // verus!
