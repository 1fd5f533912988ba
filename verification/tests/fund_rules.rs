use atlas_backend::errors::AppError;
use atlas_backend::funds::{
    add_company, check_new_company, reassignment_target, remove_company, require_referent, validate_company,
    validate_fund, Referent, UpdateFundEntityPayload,
};

fn bad_request<T: std::fmt::Debug>(r: Result<T, AppError>) -> String {
    match r {
        Err(AppError::BadRequest(m)) => m,
        other => panic!("expected BadRequest, got {other:?}"),
    }
}

fn names(v: &[&str]) -> Vec<String> {
    v.iter().map(|s| s.to_string()).collect()
}

#[test]
fn fund_name_and_vintage() {
    assert_eq!(validate_fund("  Growth Fund I ", 2021).unwrap(), "Growth Fund I");
    assert!(validate_fund("F", 1900).is_ok());
    assert!(validate_fund("F", 2200).is_ok());
    assert_eq!(bad_request(validate_fund("   ", 2021)), "name must be 1–200 characters");
    assert_eq!(
        bad_request(validate_fund("F", 1899)),
        "vintage must be a four-digit year between 1900 and 2200"
    );
    assert_eq!(
        bad_request(validate_fund("F", 2201)),
        "vintage must be a four-digit year between 1900 and 2200"
    );
}

#[test]
fn referents_must_exist() {
    assert_eq!(require_referent(Ok(7u32), Referent::Sponsor, "s-1").unwrap(), 7);
    match require_referent::<u32>(Err(AppError::Internal("x".into())), Referent::Sponsor, "s-1") {
        Err(AppError::NotFound(m)) => assert_eq!(m, "Sponsor 's-1' not found."),
        other => panic!("unexpected {other:?}"),
    }
    match require_referent::<u32>(Err(AppError::NotFound("x".into())), Referent::Entity, "e-2") {
        Err(AppError::NotFound(m)) => assert_eq!(m, "Entity 'e-2' not found."),
        other => panic!("unexpected {other:?}"),
    }
}

#[test]
fn company_checks() {
    let all = vec![true, true, true, true];
    assert_eq!(validate_company(" Acme ", "Active", &all, true).unwrap(), "Acme");
    assert!(validate_company("A", "Written Off", &all, true).is_ok());
    assert_eq!(bad_request(validate_company(" ", "Active", &all, true)), "name must be 1–200 characters");
    assert_eq!(
        bad_request(validate_company("A", "active", &all, true)),
        "status must be one of: Active, Realized, Written Off"
    );
    assert_eq!(
        bad_request(validate_company("A", "Active", &vec![true, false, false, true], true)),
        "fmv must be a finite, non-negative number"
    );
    assert_eq!(
        bad_request(validate_company("A", "Realized", &vec![true, true, true, false], true)),
        "own must be a finite, non-negative number"
    );
    assert_eq!(bad_request(validate_company("A", "Active", &all, false)), "irr must be a finite number");
}

#[test]
fn duplicate_company_refused() {
    let ns = names(&["Acme", "Beta"]);
    assert!(check_new_company(&ns, "Gamma", "f-1").is_ok());
    match check_new_company(&ns, "Beta", "f-1") {
        Err(AppError::Conflict(m)) => assert_eq!(m, "Company 'Beta' already exists in fund 'f-1'."),
        other => panic!("unexpected {other:?}"),
    }
}

#[test]
fn remove_keeps_others_in_order() {
    let ns = names(&["Acme", "Beta", "Acme", "Gamma"]);
    assert_eq!(remove_company(&ns, "Acme", "f-1").unwrap(), vec![1, 3]);
    assert_eq!(remove_company(&ns, "Gamma", "f-1").unwrap(), vec![0, 1, 2]);
    match remove_company(&ns, "Delta", "f-9") {
        Err(AppError::NotFound(m)) => assert_eq!(m, "Company 'Delta' not found in fund 'f-9'."),
        other => panic!("unexpected {other:?}"),
    }
}

#[test]
fn add_then_remove_restores_companies() {
    let mut ns = names(&["Acme", "Beta"]);
    assert!(check_new_company(&ns, "Gamma", "f-1").is_ok());
    ns.push("Gamma".to_string());
    let kept = remove_company(&ns, "Gamma", "f-1").unwrap();
    let after: Vec<String> = kept.iter().map(|&i| ns[i].clone()).collect();
    assert_eq!(after, names(&["Acme", "Beta"]));
}

#[test]
fn reassignment_trims_entity_id() {
    assert_eq!(reassignment_target(&UpdateFundEntityPayload { entity_id: "  e-5 ".into() }), "e-5");
}

#[test]
fn add_company_appends_or_refuses() {
    let names = names(&["Acme"]);
    let mut companies = vec![10u32];
    add_company(&mut companies, &names, 20u32, "Beta", "f-1").unwrap();
    assert_eq!(companies, vec![10, 20]);
    match add_company(&mut companies, &names, 30u32, "Acme", "f-1") {
        Err(AppError::Conflict(m)) => assert_eq!(m, "Company 'Acme' already exists in fund 'f-1'."),
        other => panic!("unexpected {other:?}"),
    }
    assert_eq!(companies, vec![10, 20]);
}
