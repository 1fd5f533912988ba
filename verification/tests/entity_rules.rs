use atlas_backend::entities::{
    entity_deletion_guard, is_valid_short, norm, normalise, prepare_entity, validate_kyc,
    EntityProfile, OwnerProfile,
};
use atlas_backend::errors::AppError;

fn entity(name: &str, short: &str) -> EntityProfile {
    EntityProfile {
        name: name.to_string(),
        short: short.to_string(),
        entity_type: None,
        jurisdiction_country: None,
        jurisdiction_state: None,
        formation_date: None,
        tax_id: None,
        registration_number: None,
        status: None,
        address_street: None,
        address_city: None,
        address_state: None,
        address_postal_code: None,
        address_country: None,
        contact_name: None,
        contact_title: None,
        contact_email: None,
        contact_phone: None,
        website: None,
        tax_classification: None,
        fatca_status: None,
        kyc_verified_date: None,
        kyc_verified_by: None,
        risk_rating: None,
        base_currency: None,
        source_of_wealth: None,
        notes: None,
        beneficial_owners: Vec::new(),
    }
}

fn owner(name: &str, role: Option<&str>) -> OwnerProfile {
    OwnerProfile { name: name.to_string(), role: role.map(|r| r.to_string()) }
}

fn bad_request<T: std::fmt::Debug>(r: Result<T, AppError>) -> String {
    match r {
        Err(AppError::BadRequest(m)) => m,
        other => panic!("expected BadRequest, got {other:?}"),
    }
}

#[test]
fn short_codes() {
    assert!(is_valid_short("AB"));
    assert!(is_valid_short("FO2024"));
    assert!(!is_valid_short("A"));
    assert!(!is_valid_short("ABCDEFG"));
    assert!(!is_valid_short("ab"));
    assert!(!is_valid_short("A-B"));
    assert!(!is_valid_short("ÄB"));
}

#[test]
fn optional_text_normalised() {
    assert_eq!(norm(None), None);
    assert_eq!(norm(Some("   ".into())), None);
    assert_eq!(norm(Some("  x y ".into())), Some("x y".to_string()));
    let once = norm(Some("\t v \n".into()));
    assert_eq!(norm(once.clone()), once);
}

#[test]
fn normalise_trims_everything() {
    let mut e = entity("  Family Trust  ", " ft1 ");
    e.tax_id = Some("  12-345 ".into());
    e.notes = Some("   ".into());
    e.beneficial_owners = vec![owner("  Ada ", Some("  ")), owner("Bob", Some(" Trustee "))];
    let n = normalise(e);
    assert_eq!(n.name, "Family Trust");
    assert_eq!(n.short, "FT1");
    assert_eq!(n.tax_id, Some("12-345".to_string()));
    assert_eq!(n.notes, None);
    assert_eq!(n.beneficial_owners[0].name, "Ada");
    assert_eq!(n.beneficial_owners[0].role, None);
    assert_eq!(n.beneficial_owners[1].role, Some("Trustee".to_string()));
    let again = normalise(n);
    assert_eq!(again.name, "Family Trust");
    assert_eq!(again.short, "FT1");
    assert_eq!(again.tax_id, Some("12-345".to_string()));
}

#[test]
fn prepare_entity_checks_in_order() {
    let ok = prepare_entity(entity(" Trust ", "tr"), true, &vec![], &None).unwrap();
    assert_eq!(ok.name, "Trust");
    assert_eq!(ok.short, "TR");
    assert_eq!(
        bad_request(prepare_entity(entity("   ", "x"), false, &vec![], &None)),
        "name must be 1–200 characters"
    );
    assert_eq!(
        bad_request(prepare_entity(entity("T", "x"), false, &vec![], &None)),
        "short must be 2–6 uppercase letters or digits"
    );
    assert_eq!(
        bad_request(prepare_entity(entity("T", "ok1"), false, &vec![], &None)),
        "nav must be a finite, non-negative number"
    );
    let mut e = entity("T", "OK");
    e.status = Some("Closed".into());
    assert_eq!(
        bad_request(prepare_entity(e, true, &vec![], &None)),
        "status must be one of: Active, Dormant, Dissolved"
    );
}

#[test]
fn kyc_field_errors() {
    let mut e = entity("T", "OK");
    e.tax_id = Some("x".repeat(65));
    assert_eq!(bad_request(validate_kyc(&e, &vec![], &None)), "tax_id must be at most 64 characters");

    let mut e = entity("T", "OK");
    e.risk_rating = Some("Extreme".into());
    assert_eq!(bad_request(validate_kyc(&e, &vec![], &None)), "risk_rating must be one of: Low, Medium, High");

    let mut e = entity("T", "OK");
    e.fatca_status = Some("FFI".into());
    e.tax_classification = Some("Corporation".into());
    e.status = Some(String::new());
    assert!(validate_kyc(&e, &vec![], &None).is_ok());

    let mut e = entity("T", "OK");
    e.base_currency = Some("EURO-DOLLAR".into());
    assert_eq!(bad_request(validate_kyc(&e, &vec![], &None)), "base_currency must be at most 8 characters");
}

#[test]
fn beneficial_owner_errors() {
    let mut e = entity("T", "OK");
    e.beneficial_owners = vec![owner("Ada", None), owner("  ", None)];
    assert_eq!(
        bad_request(validate_kyc(&e, &vec![true, true], &None)),
        "beneficial_owners[1].name must be 1–200 characters"
    );
    let mut e = entity("T", "OK");
    e.beneficial_owners = vec![owner("Ada", None), owner("Bob", None)];
    assert_eq!(
        bad_request(validate_kyc(&e, &vec![true, false], &None)),
        "beneficial_owners[1].ownership_pct must be between 0 and 100"
    );
    let mut e = entity("T", "OK");
    e.beneficial_owners = vec![owner("Ada", Some(&"r".repeat(201)))];
    assert_eq!(
        bad_request(validate_kyc(&e, &vec![true], &None)),
        "beneficial_owners[0].role must be at most 200 characters"
    );
    let mut e = entity("T", "OK");
    e.beneficial_owners = vec![owner("Ada", None), owner("Bob", None)];
    assert_eq!(
        bad_request(validate_kyc(&e, &vec![true, true], &Some("120.0".into()))),
        "beneficial_owners ownership total (120.0%) exceeds 100%"
    );
    assert!(validate_kyc(&entity("T", "OK"), &vec![], &Some("120.0".into())).is_ok());
}

#[test]
fn deleting_referenced_entity() {
    assert!(entity_deletion_guard("e-1", 0).is_ok());
    match entity_deletion_guard("e-1", 3) {
        Err(AppError::Conflict(m)) => assert_eq!(
            m,
            "Cannot delete entity 'e-1': 3 fund(s) still reference it. Reassign or remove the attached funds first."
        ),
        other => panic!("unexpected {other:?}"),
    }
}

#[test]
fn accepted_entity_is_stable_under_normalise() {
    let mut e = entity("  Trust  ", " ab12 ");
    e.notes = Some("  n ".into());
    let stored = prepare_entity(e, true, &vec![], &None).unwrap();
    assert_eq!(stored.short, "AB12");
    let again = normalise(stored);
    assert_eq!(again.name, "Trust");
    assert_eq!(again.short, "AB12");
    assert_eq!(again.notes, Some("n".to_string()));
}
