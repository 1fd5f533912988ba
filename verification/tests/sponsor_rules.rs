use atlas_backend::errors::AppError;
use atlas_backend::ids::{existing_keys, new_entity_id, new_entity_keys, new_fund_id, new_fund_keys, new_sponsor_id};
use atlas_backend::sponsors::{
    aggregate_counts, entities_filter, funds_filter, group_funds, is_valid_color,
    is_valid_initials, new_sponsor_row, sponsor_deletion_guard, sponsor_funds_filter,
    validate_sponsor, CreateSponsorPayload, FundFacts, FundFilter, SponsorFilter,
};

fn ids(v: &[&str]) -> Vec<String> {
    v.iter().map(|s| s.to_string()).collect()
}

fn payload(name: &str, initials: &str, country: &str, color: &str) -> CreateSponsorPayload {
    CreateSponsorPayload {
        name: name.into(),
        initials: initials.into(),
        country: country.into(),
        color: color.into(),
    }
}

fn bad_request<T: std::fmt::Debug>(r: Result<T, AppError>) -> String {
    match r {
        Err(AppError::BadRequest(m)) => m,
        other => panic!("expected BadRequest, got {other:?}"),
    }
}

#[test]
fn listing_filters() {
    assert_eq!(entities_filter("o1"), "organization_id=eq.o1&order=created_at.asc");
    assert_eq!(sponsor_funds_filter("o1", &SponsorFilter { entity: None }), "organization_id=eq.o1");
    assert_eq!(
        sponsor_funds_filter("o1", &SponsorFilter { entity: Some("e1".into()) }),
        "organization_id=eq.o1&entity_id=eq.e1"
    );
    assert_eq!(
        funds_filter("o1", &FundFilter { entity: Some("e1".into()), sponsor: Some("s1".into()) }),
        "organization_id=eq.o1&entity_id=eq.e1&sponsor_id=eq.s1"
    );
    assert_eq!(
        funds_filter("o1", &FundFilter { entity: None, sponsor: Some("s1".into()) }),
        "organization_id=eq.o1&sponsor_id=eq.s1"
    );
    assert_eq!(funds_filter("o1", &FundFilter { entity: None, sponsor: None }), "organization_id=eq.o1");
}

#[test]
fn funds_grouped_by_sponsor() {
    let sponsors = ids(&["s1", "s2", "s3"]);
    let funds = ids(&["s2", "s1", "s2", "sX"]);
    let all = group_funds(&sponsors, &funds, false);
    let view: Vec<(usize, Vec<usize>)> = all.iter().map(|g| (g.sponsor, g.funds.clone())).collect();
    assert_eq!(view, vec![(0, vec![1]), (1, vec![0, 2]), (2, vec![])]);
    let with_funds = group_funds(&sponsors, &funds, true);
    let view: Vec<(usize, Vec<usize>)> = with_funds.iter().map(|g| (g.sponsor, g.funds.clone())).collect();
    assert_eq!(view, vec![(0, vec![1]), (1, vec![0, 2])]);
}

#[test]
fn sponsor_counts() {
    let funds = vec![
        FundFacts { asset_class: "Buyout".into(), company_count: 3 },
        FundFacts { asset_class: "Venture".into(), company_count: 0 },
        FundFacts { asset_class: "Buyout".into(), company_count: 2 },
    ];
    let c = aggregate_counts(&funds);
    assert_eq!(c.fund_count, 3);
    assert_eq!(c.company_count, 5);
    assert_eq!(c.asset_classes, ids(&["Buyout", "Venture"]));
    let none = aggregate_counts(&Vec::new());
    assert_eq!(none.fund_count, 0);
    assert_eq!(none.company_count, 0);
    assert!(none.asset_classes.is_empty());
}

#[test]
fn initials_and_colors() {
    assert!(is_valid_initials("AB"));
    assert!(is_valid_initials("A B"));
    assert!(is_valid_initials("ÉÀ1"));
    assert!(!is_valid_initials(""));
    assert!(!is_valid_initials("   "));
    assert!(!is_valid_initials("ABCDE"));
    assert!(!is_valid_initials("A-B"));
    assert!(is_valid_color("#8B7BD8"));
    assert!(is_valid_color("#abc"));
    assert!(!is_valid_color("8B7BD8"));
    assert!(!is_valid_color("#12345"));
    assert!(!is_valid_color("#GGG"));
    assert!(!is_valid_color(""));
}

#[test]
fn sponsor_validation() {
    let f = validate_sponsor(&payload(" Blackstone ", " bx ", " USA ", " #000000 ")).unwrap();
    assert_eq!(f.name, "Blackstone");
    assert_eq!(f.initials, "BX");
    assert_eq!(f.country, "USA");
    assert_eq!(f.color, "#000000");
    assert_eq!(bad_request(validate_sponsor(&payload(" ", "B", "", "#000"))), "name must be 1–200 characters");
    assert_eq!(
        bad_request(validate_sponsor(&payload("B", "B-X", "", "#000"))),
        "initials must be 1–4 alphanumeric characters"
    );
    assert_eq!(
        bad_request(validate_sponsor(&payload("B", "BX", &"c".repeat(201), "#000"))),
        "country must be at most 200 characters"
    );
    assert_eq!(
        bad_request(validate_sponsor(&payload("B", "BX", "", "red"))),
        "color must be a hex string like #8B7BD8 or #ABC"
    );

    let row = new_sponsor_row("s-1".into(), "o-1", f);
    assert_eq!(row.id, "s-1");
    assert_eq!(row.organization_id, "o-1");
    assert_eq!(row.name, "Blackstone");
    assert_eq!(row.initials, "BX");
}

#[test]
fn deleting_referenced_sponsor() {
    assert!(sponsor_deletion_guard("s-1", 0).is_ok());
    match sponsor_deletion_guard("s-1", 12) {
        Err(AppError::Conflict(m)) => assert_eq!(m, "Cannot delete sponsor 's-1': 12 fund(s) still reference it."),
        other => panic!("unexpected {other:?}"),
    }
}

#[test]
fn prefixed_ids() {
    for (id, prefix) in [(new_entity_id(), "e-"), (new_fund_id(), "f-"), (new_sponsor_id(), "s-")] {
        assert!(id.starts_with(prefix));
        assert_eq!(id.len(), 34);
        assert!(id[2..].chars().all(|c| c.is_ascii_digit() || ('a'..='f').contains(&c)));
    }
    assert_ne!(new_fund_id(), new_fund_id());
}

#[test]
fn stamped_keys() {
    let e = new_entity_keys("org-1");
    assert!(e.id.starts_with("e-") && e.id.len() == 34);
    assert_eq!(e.organization_id, "org-1");
    let f = new_fund_keys("org-2");
    assert!(f.id.starts_with("f-") && f.id.len() == 34);
    assert_eq!(f.organization_id, "org-2");
    let k = existing_keys("e-9", "org-3");
    assert_eq!(k.id, "e-9");
    assert_eq!(k.organization_id, "org-3");
}
