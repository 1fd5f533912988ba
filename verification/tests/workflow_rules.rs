use atlas_backend::copilot::{record_query, seed_history, seed_suggestions};
use atlas_backend::errors::AppError;
use atlas_backend::health::health_report;
use atlas_backend::models::copilot::CopilotQueryRequest;
use atlas_backend::models::review::{ReviewDocument, ReviewField};
use atlas_backend::organization::{
    organization_filter, plan_org_update, OrgUpdate, UpdateOrganizationPayload,
};
use atlas_backend::portfolio::{seed_kpis, select_investments, InvestmentFilter};
use atlas_backend::review::{act_on_field, find_review, seed_review};
use atlas_backend::security::SecurityHeaders;

fn field(id: &str) -> ReviewField {
    ReviewField {
        id: id.to_string(),
        key: format!("key {id}"),
        value: "1,000".to_string(),
        confidence: 90,
        page: 1,
        approved: None,
        flagged: false,
    }
}

fn review_doc() -> ReviewDocument {
    ReviewDocument {
        id: "doc-1".into(),
        name: "Statement.pdf".into(),
        fund: "Fund I".into(),
        doc_type: "Statement".into(),
        confidence: 88,
        fields: vec![field("f1"), field("f2"), field("f1")],
    }
}

#[test]
fn review_seed_matches_nothing() {
    let mut r = seed_review();
    assert!(r.fields.is_empty());
    assert_eq!(r.confidence, 0);
    match find_review(&r, "doc-1") {
        Err(AppError::NotFound(m)) => assert_eq!(m, "Review document 'doc-1' not found."),
        other => panic!("unexpected {other:?}"),
    }
    match find_review(&r, "") {
        Err(AppError::NotFound(m)) => assert_eq!(m, "Review document '' not found."),
        other => panic!("unexpected {other:?}"),
    }
    match act_on_field(&mut r, "", "f1", true) {
        Err(AppError::NotFound(m)) => assert_eq!(m, "Review document '' not found."),
        other => panic!("unexpected {other:?}"),
    }
    assert!(r.id.is_empty() && r.fields.is_empty());
    assert!(find_review(&review_doc(), "doc-1").is_ok());
}

#[test]
fn decision_is_recorded_on_first_matching_field() {
    let mut r = review_doc();
    let f = act_on_field(&mut r, "doc-1", "f1", true).unwrap();
    assert_eq!(f.id, "f1");
    assert_eq!(f.approved, Some(true));
    assert_eq!(r.fields[0].approved, Some(true));
    assert_eq!(r.fields[1].approved, None);
    assert_eq!(r.fields[2].approved, None);
    assert_eq!(r.fields[0].value, "1,000");
    assert_eq!(r.name, "Statement.pdf");
}

#[test]
fn last_decision_stands() {
    let mut r = review_doc();
    act_on_field(&mut r, "doc-1", "f2", true).unwrap();
    let f = act_on_field(&mut r, "doc-1", "f2", false).unwrap();
    assert_eq!(f.approved, Some(false));
    assert_eq!(r.fields[1].approved, Some(false));
}

#[test]
fn unknown_document_or_field_changes_nothing() {
    let mut r = review_doc();
    match act_on_field(&mut r, "doc-2", "f1", true) {
        Err(AppError::NotFound(m)) => assert_eq!(m, "Review document 'doc-2' not found."),
        other => panic!("unexpected {other:?}"),
    }
    match act_on_field(&mut r, "doc-1", "zz", true) {
        Err(AppError::NotFound(m)) => assert_eq!(m, "Field 'zz' not found in document 'doc-1'."),
        other => panic!("unexpected {other:?}"),
    }
    assert!(r.fields.iter().all(|f| f.approved.is_none()));
}

#[test]
fn copilot_seeds() {
    assert!(seed_history().is_empty());
    let texts: Vec<String> = seed_suggestions().into_iter().map(|s| s.text).collect();
    assert_eq!(
        texts,
        vec![
            "Total unfunded by asset class?",
            "Best performing fund by gross IRR?",
            "Show TVPI breakdown by sponsor",
            "What capital calls are due this quarter?",
            "Compare net IRR across all funds",
        ]
    );
}

#[test]
fn copilot_query_appends_two_messages() {
    let mut history = seed_history();
    let a = record_query(&mut history, &CopilotQueryRequest { query: "  What is our NAV?  ".into() }).unwrap();
    assert_eq!(history.len(), 2);
    assert_eq!(history[0].role, "user");
    assert_eq!(history[0].text, "What is our NAV?");
    assert_eq!(history[1].role, "ai");
    assert_eq!(
        a.text,
        "Based on the available portfolio data, I can see that \"What is our NAV?\". Let me look into that for you. Currently tracking 5 investments across 5 themes with a total NAV of $32.1M."
    );
    assert_eq!(history[1].text, a.text);
    assert_eq!(a.citations, Some(vec!["Portfolio Ledger · Latest".to_string()]));
    assert!(a.table.is_none() && a.total.is_none());
    record_query(&mut history, &CopilotQueryRequest { query: "next".into() }).unwrap();
    assert_eq!(history.len(), 4);
    assert_eq!(history[0].text, "What is our NAV?");
    assert_eq!(history[2].text, "next");
}

#[test]
fn copilot_query_refusals_leave_history() {
    let mut history = seed_history();
    match record_query(&mut history, &CopilotQueryRequest { query: "   ".into() }) {
        Err(AppError::BadRequest(m)) => assert_eq!(m, "Query must not be empty."),
        other => panic!("unexpected {other:?}"),
    }
    match record_query(&mut history, &CopilotQueryRequest { query: "q".repeat(1001) }) {
        Err(AppError::BadRequest(m)) => assert_eq!(m, "Query exceeds maximum length of 1000 characters."),
        other => panic!("unexpected {other:?}"),
    }
    assert!(history.is_empty());
    assert!(record_query(&mut history, &CopilotQueryRequest { query: "q".repeat(1000) }).is_ok());
}

#[test]
fn organization_updates() {
    let p = UpdateOrganizationPayload { name: None, onboarded: None };
    assert!(matches!(plan_org_update(&p, "member"), Ok(OrgUpdate::Fetch)));
    let p = UpdateOrganizationPayload { name: None, onboarded: Some(true) };
    match plan_org_update(&p, "member") {
        Ok(OrgUpdate::Patch(patch)) => {
            assert_eq!(patch.name, None);
            assert_eq!(patch.onboarded, Some(true));
        }
        other => panic!("unexpected {other:?}"),
    }
    let p = UpdateOrganizationPayload { name: Some("  Acme Family Office ".into()), onboarded: None };
    match plan_org_update(&p, "owner") {
        Ok(OrgUpdate::Patch(patch)) => assert_eq!(patch.name, Some("Acme Family Office".to_string())),
        other => panic!("unexpected {other:?}"),
    }
    match plan_org_update(&p, "member") {
        Err(AppError::Unauthorized(m)) => assert_eq!(m, "Only the organization owner can change the name"),
        other => panic!("unexpected {other:?}"),
    }
    let p = UpdateOrganizationPayload { name: Some("   ".into()), onboarded: Some(true) };
    match plan_org_update(&p, "owner") {
        Err(AppError::BadRequest(m)) => assert_eq!(m, "name must be 1–200 characters"),
        other => panic!("unexpected {other:?}"),
    }
    assert_eq!(organization_filter("o-1"), "id=eq.o-1");
}

#[test]
fn investment_filter() {
    let kinds: Vec<String> = ["VC", "PE", "Direct", "Real Assets", "vc"].iter().map(|s| s.to_string()).collect();
    let q = |f: Option<&str>| InvestmentFilter { filter: f.map(|s| s.to_string()) };
    assert_eq!(select_investments(&q(None), &kinds).unwrap(), vec![0, 1, 2, 3, 4]);
    assert_eq!(select_investments(&q(Some("ALL")), &kinds).unwrap(), vec![0, 1, 2, 3, 4]);
    assert_eq!(select_investments(&q(Some("")), &kinds).unwrap(), vec![0, 1, 2, 3, 4]);
    assert_eq!(select_investments(&q(Some("VC")), &kinds).unwrap(), vec![0, 4]);
    assert_eq!(select_investments(&q(Some("real_assets")), &kinds).unwrap(), vec![3]);
    assert!(seed_kpis().is_empty());
}

#[test]
fn unknown_investment_filter_is_refused() {
    let kinds: Vec<String> = vec!["VC".to_string()];
    match select_investments(&InvestmentFilter { filter: Some("Crypto".into()) }, &kinds) {
        Err(AppError::BadRequest(m)) => {
            assert_eq!(m, "Invalid filter 'crypto'. Must be one of: all, vc, pe, direct, real_assets")
        }
        other => panic!("unexpected {other:?}"),
    }
}

#[test]
fn copilot_history_stays_paired() {
    let mut history = seed_history();
    for q in ["a", "   ", "b", "c"] {
        let _ = record_query(&mut history, &CopilotQueryRequest { query: q.into() });
        assert_eq!(history.len() % 2, 0);
        for pair in history.chunks(2) {
            assert_eq!(pair[0].role, "user");
            assert_eq!(pair[1].role, "ai");
            assert!(pair[1].text.contains(&format!("\"{}\"", pair[0].text)));
        }
    }
    assert_eq!(history.len(), 6);
}

#[test]
fn health_and_headers() {
    let h = health_report();
    assert_eq!(h.status, "ok");
    assert!(h.timestamp.contains('T'));
    let pairs = SecurityHeaders.header_pairs();
    assert_eq!(pairs.len(), 6);
    assert_eq!(pairs[0], ("content-security-policy".to_string(), "default-src 'self'".to_string()));
    assert_eq!(pairs[2], ("x-frame-options".to_string(), "DENY".to_string()));
    assert_eq!(
        pairs[5],
        ("permissions-policy".to_string(), "camera=(), microphone=(), geolocation=()".to_string())
    );
}

#[test]
fn investment_filter_ignores_ascii_case() {
    let kinds: Vec<String> = ["VC", "PE", "Real Assets"].iter().map(|s| s.to_string()).collect();
    for (a, b) in [("VC", "vc"), ("Pe", "pE"), ("REAL_ASSETS", "real_assets"), ("All", "all")] {
        let x = select_investments(&InvestmentFilter { filter: Some(a.into()) }, &kinds).unwrap();
        let y = select_investments(&InvestmentFilter { filter: Some(b.into()) }, &kinds).unwrap();
        assert_eq!(x, y);
    }
}
