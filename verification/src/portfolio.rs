//! The legacy portfolio views: the KPI cards and the investment filter.
use vstd::prelude::*;
use vstd::string::*;

use crate::errors::AppError;
use crate::models::portfolio::Kpi;
use crate::text::{
    all_ascii, ascii_lower, ascii_lower_seq, eq_ignore_ascii_case, lower_case, str_eq, to_lowercase,
};

verus! {

/// Query of `GET /portfolio/investments`.
#[derive(Debug)]
pub struct InvestmentFilter {
    /// Accepted values, in any case: `all`, `vc`, `pe`, `direct`, `real_assets`.
    pub filter: Option<String>,
}

/// The KPI cards: none are recorded yet.
pub fn seed_kpis() -> (r: Vec<Kpi>)
    ensures
        r@.len() == 0,
{
    Vec::new()
}

/// ASCII case-insensitive equality of two texts.
pub open spec fn same_ignoring_ascii_case(a: Seq<char>, b: Seq<char>) -> bool {
    a.len() == b.len() && forall|j: int| 0 <= j < a.len() ==> ascii_lower(#[trigger] a[j]) == ascii_lower(b[j])
}

/// Whether an investment of type `kind` is listed under the lower-cased
/// filter value `filter`; an unknown filter value lists nothing.
pub open spec fn filter_admits(filter: Seq<char>, kind: Seq<char>) -> bool {
    if filter == "all"@ || filter.len() == 0 {
        true
    } else if filter == "vc"@ {
        same_ignoring_ascii_case(kind, "VC"@)
    } else if filter == "pe"@ {
        same_ignoring_ascii_case(kind, "PE"@)
    } else if filter == "direct"@ {
        same_ignoring_ascii_case(kind, "Direct"@)
    } else if filter == "real_assets"@ {
        same_ignoring_ascii_case(kind, "Real Assets"@)
    } else {
        false
    }
}

/// The filter value a query selects with: its `filter` lower-cased, or `all`.
pub open spec fn effective_filter(f: InvestmentFilter) -> Seq<char> {
    match f.filter {
        Some(v) => lower_case(v@),
        None => "all"@,
    }
}

fn admits(filter: &str, kind: &str) -> (r: bool)
    ensures
        r == filter_admits(filter@, kind@),
{
    if str_eq(filter, "all") || filter.unicode_len() == 0 {
        true
    } else if str_eq(filter, "vc") {
        eq_ignore_ascii_case(kind, "VC")
    } else if str_eq(filter, "pe") {
        eq_ignore_ascii_case(kind, "PE")
    } else if str_eq(filter, "direct") {
        eq_ignore_ascii_case(kind, "Direct")
    } else if str_eq(filter, "real_assets") {
        eq_ignore_ascii_case(kind, "Real Assets")
    } else {
        false
    }
}

/// The filter values a query may select with (after lower-casing).
pub open spec fn known_filter(filter: Seq<char>) -> bool {
    filter == "all"@ || filter.len() == 0 || filter == "vc"@ || filter == "pe"@
        || filter == "direct"@ || filter == "real_assets"@
}

/// The message with which a query whose lower-cased filter is `filter` is refused.
pub open spec fn unknown_filter_message(filter: Seq<char>) -> Seq<char> {
    "Invalid filter '"@ + filter + "'. Must be one of: all, vc, pe, direct, real_assets"@
}

/// `r` lists, in increasing order, exactly the positions of the investments
/// (given by their types) that `filter` admits.
pub open spec fn lists_admitted(r: Seq<usize>, filter: Seq<char>, kinds: Seq<String>) -> bool {
    &&& forall|k: int| 0 <= k < r.len() ==> (#[trigger] r[k]) < kinds.len() && filter_admits(
        filter,
        kinds[r[k] as int]@,
    )
    &&& forall|p: int| 0 <= p < kinds.len() && filter_admits(filter, kinds[p]@) ==> r.contains(
        p as usize,
    )
    &&& forall|k: int, l: int| 0 <= k < l < r.len() ==> r[k] < r[l]
}

fn is_known_filter(filter: &str) -> (r: bool)
    ensures
        r == known_filter(filter@),
{
    str_eq(filter, "all") || filter.unicode_len() == 0 || str_eq(filter, "vc") || str_eq(filter, "pe")
        || str_eq(filter, "direct") || str_eq(filter, "real_assets")
}

/// The positions, in order, of the investments (given by their types) that
/// the query lists; a filter value that is not one of the accepted ones is
/// refused rather than answered with an empty list.
pub fn select_investments(query: &InvestmentFilter, kinds: &Vec<String>) -> (r: Result<Vec<usize>, AppError>)
    ensures
        !known_filter(effective_filter(*query)) ==> (r matches Err(AppError::BadRequest(m)) && m@
            == unknown_filter_message(effective_filter(*query))),
        known_filter(effective_filter(*query)) ==> (r matches Ok(v) && lists_admitted(
            v@,
            effective_filter(*query),
            kinds@,
        )),
        match query.filter {
            Some(v) => all_ascii(v@) ==> effective_filter(*query) == ascii_lower_seq(v@),
            None => effective_filter(*query) == "all"@,
        },
{
    let filter = match &query.filter {
        Some(v) => to_lowercase(v.as_str()),
        None => String::from_str("all"),
    };
    if !is_known_filter(filter.as_str()) {
        let mut m = String::from_str("Invalid filter '");
        m.append(filter.as_str());
        m.append("'. Must be one of: all, vc, pe, direct, real_assets");
        return Err(AppError::BadRequest(m));
    }
    let n = kinds.len();
    let mut r: Vec<usize> = Vec::new();
    let mut i: usize = 0;
    while i < n
        invariant
            0 <= i <= n,
            n == kinds@.len(),
            filter@ == effective_filter(*query),
            forall|k: int| 0 <= k < r@.len() ==> (#[trigger] r@[k]) < i && filter_admits(
                filter@,
                kinds@[r@[k] as int]@,
            ),
            forall|p: int| 0 <= p < i && filter_admits(filter@, kinds@[p]@) ==> r@.contains(
                p as usize,
            ),
            forall|k: int, l: int| 0 <= k < l < r@.len() ==> r@[k] < r@[l],
        decreases n - i,
    {
        let ghost before = r@;
        if admits(filter.as_str(), kinds[i].as_str()) {
            r.push(i);
            assert(r@[r@.len() - 1] == i);
            assert forall|p: int| 0 <= p < i + 1 && filter_admits(filter@, kinds@[p]@) implies r@.contains(p as usize) by {
                if p < i {
                    let k = choose|k: int| 0 <= k < before.len() && before[k] == p as usize;
                    assert(r@[k] == p as usize);
                }
            }
        }
        i = i + 1;
    }
    Ok(r)
}


/// `kind` equals `name` once both are ASCII lower-cased.
pub open spec fn names_type(kind: Seq<char>, name: Seq<char>) -> bool {
    kind.len() == name.len() && forall|j: int| 0 <= j < kind.len() ==> ascii_lower(#[trigger] kind[j])
        == ascii_lower(name[j])
}

proof fn lemma_names_type(kind: Seq<char>, name: Seq<char>)
    ensures
        same_ignoring_ascii_case(kind, name) == names_type(kind, name),
{
    if same_ignoring_ascii_case(kind, name) {
        assert forall|j: int| 0 <= j < kind.len() implies ascii_lower(#[trigger] kind[j]) == ascii_lower(name[j]) by {
        }
    }
    if names_type(kind, name) {
        assert forall|j: int| 0 <= j < kind.len() implies ascii_lower(#[trigger] kind[j]) == ascii_lower(name[j]) by {
        }
    }
}

/// Which investments each filter value lists: `all` and the empty value list
/// every investment, `vc`, `pe`, `direct` and `real_assets` list exactly the
/// investments of type VC, PE, Direct and Real Assets (in any ASCII case),
/// each type under one filter only, and any other value lists none.
pub proof fn lemma_filter_rule(filter: Seq<char>, kind: Seq<char>)
    ensures
        (filter == "all"@ || filter.len() == 0) ==> filter_admits(filter, kind),
        filter == "vc"@ ==> (filter_admits(filter, kind) <==> names_type(kind, "VC"@)),
        filter == "pe"@ ==> (filter_admits(filter, kind) <==> names_type(kind, "PE"@)),
        filter == "direct"@ ==> (filter_admits(filter, kind) <==> names_type(kind, "Direct"@)),
        filter == "real_assets"@ ==> (filter_admits(filter, kind) <==> names_type(
            kind,
            "Real Assets"@,
        )),
        !known_filter(filter) ==> !filter_admits(filter, kind),
        !(names_type(kind, "VC"@) && names_type(kind, "PE"@)),
{
    lemma_names_type(kind, "VC"@);
    lemma_names_type(kind, "PE"@);
    lemma_names_type(kind, "Direct"@);
    lemma_names_type(kind, "Real Assets"@);
    reveal_strlit("VC");
    reveal_strlit("PE");
    reveal_strlit("vc");
    reveal_strlit("pe");
    reveal_strlit("all");
    reveal_strlit("direct");
    reveal_strlit("real_assets");
    assert("vc"@.len() == 2);
    assert("all"@.len() == 3);
    assert("pe"@[0] == 'p');
    assert("vc"@[0] == 'v');
    assert("direct"@[0] == 'd');
    assert("real_assets"@[0] == 'r');
    assert("all"@[0] == 'a');
    if names_type(kind, "VC"@) && names_type(kind, "PE"@) {
        assert(ascii_lower(kind[0]) == ascii_lower('V'));
        assert(ascii_lower(kind[0]) == ascii_lower('P'));
    }
}

} // verus!
