//! Funds and their portfolio companies: creation checks, reassignment to an
//! entity, and adding or removing a company of a fund.
//!
//! A company's amounts are floating-point numbers; whether each is finite
//! and non-negative is decided by the caller and handed in as booleans.
use vstd::prelude::*;
use vstd::string::*;

use crate::errors::AppError;
use crate::text::{byte_len_spec, str_eq, trim, trim_spec};

verus! {

/// Body of `PATCH /funds/{id}/entity`.
#[derive(Debug)]
pub struct UpdateFundEntityPayload {
    pub entity_id: String,
}

/// The message with which a new fund is refused, if any.
pub open spec fn fund_error(name: Seq<char>, vintage: u32) -> Option<Seq<char>> {
    let n = trim_spec(name);
    if n.len() == 0 || byte_len_spec(n) > 200 {
        Some("name must be 1–200 characters"@)
    } else if !(1900 <= vintage <= 2200) {
        Some("vintage must be a four-digit year between 1900 and 2200"@)
    } else {
        None
    }
}

/// Check the name and vintage of a new fund; returns the trimmed name.
pub fn validate_fund(name: &str, vintage: u32) -> (r: Result<String, AppError>)
    ensures
        match fund_error(name@, vintage) {
            Some(m) => r matches Err(AppError::BadRequest(x)) && x@ == m,
            None => r matches Ok(n) && n@ == trim_spec(name@),
        },
{
    let n = trim(name);
    if n.as_str().unicode_len() == 0 || n.as_str().len() > 200 {
        return Err(AppError::BadRequest(String::from_str("name must be 1–200 characters")));
    }
    if !(1900 <= vintage && vintage <= 2200) {
        return Err(
            AppError::BadRequest(
                String::from_str("vintage must be a four-digit year between 1900 and 2200"),
            ),
        );
    }
    Ok(n)
}

/// The record kinds a fund refers to.
#[derive(Debug, Clone, Copy, PartialEq, Eq)]
pub enum Referent {
    Sponsor,
    Entity,
}

pub open spec fn referent_label(k: Referent) -> Seq<char> {
    match k {
        Referent::Sponsor => "Sponsor '"@,
        Referent::Entity => "Entity '"@,
    }
}

/// The outcome of looking up the record a fund refers to: the record, or
/// `NotFound` naming it whatever made the lookup fail.
pub fn require_referent<T>(found: Result<T, AppError>, kind: Referent, id: &str) -> (r: Result<
    T,
    AppError,
>)
    ensures
        found matches Ok(v) ==> (r matches Ok(w) && w == v),
        found is Err ==> (r matches Err(AppError::NotFound(m)) && m@ == referent_label(kind) + id@
            + "' not found."@),
{
    match found {
        Ok(v) => Ok(v),
        Err(_) => {
            let mut m = match kind {
                Referent::Sponsor => String::from_str("Sponsor '"),
                Referent::Entity => String::from_str("Entity '"),
            };
            m.append(id);
            m.append("' not found.");
            Err(AppError::NotFound(m))
        },
    }
}

pub open spec fn company_statuses() -> Seq<Seq<char>> {
    seq!["Active"@, "Realized"@, "Written Off"@]
}

/// The labels of a company's amounts that must be finite and non-negative,
/// in the order they are checked.
pub open spec fn amount_labels() -> Seq<Seq<char>> {
    seq!["invested"@, "fmv"@, "moic"@, "own"@]
}

/// Index of the first `false` in `ok`, if any.
pub open spec fn first_failure(ok: Seq<bool>) -> Option<int> {
    if exists|i: int| 0 <= i < ok.len() && !ok[i] && forall|j: int| 0 <= j < i ==> ok[j] {
        Some(choose|i: int| 0 <= i < ok.len() && !ok[i] && forall|j: int| 0 <= j < i ==> ok[j])
    } else {
        None
    }
}

/// The message with which a new company is refused, if any.  `amounts_ok[k]`
/// says whether the amount labelled `amount_labels()[k]` is finite and
/// non-negative; `irr_ok` whether the IRR is finite.
pub open spec fn company_error(name: Seq<char>, status: Seq<char>, amounts_ok: Seq<bool>, irr_ok: bool) -> Option<Seq<char>> {
    let n = trim_spec(name);
    if n.len() == 0 || byte_len_spec(n) > 200 {
        Some("name must be 1–200 characters"@)
    } else if !company_statuses().contains(status) {
        Some("status must be one of: Active, Realized, Written Off"@)
    } else if first_failure(amounts_ok) is Some {
        Some(amount_labels()[first_failure(amounts_ok)->0] + " must be a finite, non-negative number"@)
    } else if !irr_ok {
        Some("irr must be a finite number"@)
    } else {
        None
    }
}

proof fn lemma_first_failure(ok: Seq<bool>, k: int)
    requires
        0 <= k <= ok.len(),
        k < ok.len() ==> !ok[k],
        forall|j: int| 0 <= j < k ==> ok[j],
    ensures
        k < ok.len() ==> first_failure(ok) == Some(k),
        k == ok.len() ==> first_failure(ok) is None,
{
    if k < ok.len() {
        let i = choose|i: int| 0 <= i < ok.len() && !ok[i] && forall|j: int| 0 <= j < i ==> ok[j];
        assert(i == k) by {
            if i < k {
                assert(ok[i]);
            }
            if i > k {
                assert(ok[k]);
            }
        }
    }
}

/// Check a new company of a fund; returns its trimmed name.
pub fn validate_company(name: &str, status: &str, amounts_ok: &Vec<bool>, irr_ok: bool) -> (r: Result<String, AppError>)
    requires
        amounts_ok@.len() == 4,
    ensures
        match company_error(name@, status@, amounts_ok@, irr_ok) {
            Some(m) => r matches Err(AppError::BadRequest(x)) && x@ == m,
            None => r matches Ok(n) && n@ == trim_spec(name@),
        },
{
    let n = trim(name);
    if n.as_str().unicode_len() == 0 || n.as_str().len() > 200 {
        return Err(AppError::BadRequest(String::from_str("name must be 1–200 characters")));
    }
    let known = str_eq(status, "Active") || str_eq(status, "Realized") || str_eq(
        status,
        "Written Off",
    );
    proof {
        if company_statuses().contains(status@) {
            let k = choose|k: int| 0 <= k < 3 && company_statuses()[k] == status@;
            assert(0 <= k < 3);
        }
        if known {
            if status@ == "Active"@ {
                assert(company_statuses()[0] == status@);
            } else if status@ == "Realized"@ {
                assert(company_statuses()[1] == status@);
            } else {
                assert(company_statuses()[2] == status@);
            }
        }
    }
    if !known {
        return Err(
            AppError::BadRequest(
                String::from_str("status must be one of: Active, Realized, Written Off"),
            ),
        );
    }
    let mut k: usize = 0;
    while k < 4
        invariant
            0 <= k <= 4,
            amounts_ok@.len() == 4,
            forall|j: int| 0 <= j < k ==> amounts_ok@[j],
            n@ == trim_spec(name@),
            !(n@.len() == 0 || byte_len_spec(n@) > 200),
            company_statuses().contains(status@),
        decreases 4 - k,
    {
        if !amounts_ok[k] {
            proof {
                lemma_first_failure(amounts_ok@, k as int);
            }
            let mut m = if k == 0 {
                String::from_str("invested")
            } else if k == 1 {
                String::from_str("fmv")
            } else if k == 2 {
                String::from_str("moic")
            } else {
                String::from_str("own")
            };
            assert(m@ == amount_labels()[k as int]);
            m.append(" must be a finite, non-negative number");
            return Err(AppError::BadRequest(m));
        }
        k = k + 1;
    }
    proof {
        lemma_first_failure(amounts_ok@, 4);
    }
    if !irr_ok {
        return Err(AppError::BadRequest(String::from_str("irr must be a finite number")));
    }
    Ok(n)
}

pub open spec fn names_of(v: Seq<String>) -> Seq<Seq<char>> {
    v.map_values(|s: String| s@)
}

/// Check that a company named `name` may be added to the fund `fund_id`
/// whose companies are named `names`: no company of the fund has that name.
pub fn check_new_company(names: &Vec<String>, name: &str, fund_id: &str) -> (r: Result<(), AppError>)
    ensures
        !names_of(names@).contains(name@) ==> r is Ok,
        names_of(names@).contains(name@) ==> (r matches Err(AppError::Conflict(m)) && m@
            == "Company '"@ + name@ + "' already exists in fund '"@ + fund_id@ + "'."@),
{
    let n = names.len();
    let mut i: usize = 0;
    while i < n
        invariant
            0 <= i <= n,
            n == names@.len(),
            forall|j: int| 0 <= j < i ==> names@[j]@ != name@,
        decreases n - i,
    {
        if str_eq(names[i].as_str(), name) {
            assert(names_of(names@)[i as int] == name@);
            let mut m = String::from_str("Company '");
            m.append(name);
            m.append("' already exists in fund '");
            m.append(fund_id);
            m.append("'.");
            return Err(AppError::Conflict(m));
        }
        i = i + 1;
    }
    proof {
        if names_of(names@).contains(name@) {
            let k = choose|k: int| 0 <= k < names_of(names@).len() && names_of(names@)[k] == name@;
            assert(names@[k]@ == name@);
        }
    }
    Ok(())
}

/// The positions, in order, of the names in `names` other than `name`.
pub open spec fn kept_positions(names: Seq<Seq<char>>, name: Seq<char>) -> Seq<int>
    decreases names.len(),
{
    if names.len() == 0 {
        Seq::empty()
    } else if names.last() == name {
        kept_positions(names.drop_last(), name)
    } else {
        kept_positions(names.drop_last(), name).push(names.len() - 1)
    }
}

/// Remove the companies named `name` from the fund `fund_id` whose
/// companies are named `names`: returns the positions of the companies that
/// stay, in order, or `NotFound` when no company has that name.
pub fn remove_company(names: &Vec<String>, name: &str, fund_id: &str) -> (r: Result<Vec<usize>, AppError>)
    ensures
        names_of(names@).contains(name@) ==> (r matches Ok(kept) && kept@.map_values(|k: usize| k as int)
            == kept_positions(names_of(names@), name@)),
        !names_of(names@).contains(name@) ==> (r matches Err(AppError::NotFound(m)) && m@
            == "Company '"@ + name@ + "' not found in fund '"@ + fund_id@ + "'."@),
{
    let ghost views = names_of(names@);
    let n = names.len();
    let mut kept: Vec<usize> = Vec::new();
    let mut removed = false;
    let mut i: usize = 0;
    assert(views.subrange(0, 0) =~= Seq::<Seq<char>>::empty());
    while i < n
        invariant
            0 <= i <= n,
            n == names@.len(),
            views == names_of(names@),
            kept@.map_values(|k: usize| k as int) == kept_positions(views.subrange(0, i as int), name@),
            removed == views.subrange(0, i as int).contains(name@),
        decreases n - i,
    {
        let ghost pre = views.subrange(0, i as int);
        let ghost ext = views.subrange(0, i + 1);
        assert(ext.drop_last() =~= pre);
        assert(ext.last() == names@[i as int]@);
        if str_eq(names[i].as_str(), name) {
            removed = true;
            assert(ext.contains(name@)) by {
                assert(ext[i as int] == name@);
            }
        } else {
            kept.push(i);
            assert(kept@.map_values(|k: usize| k as int) =~= kept_positions(pre, name@).push(i as int));
            assert(ext.contains(name@) == pre.contains(name@)) by {
                if ext.contains(name@) {
                    let k = choose|k: int| 0 <= k < ext.len() && ext[k] == name@;
                    assert(k < i);
                    assert(pre[k] == name@);
                }
                if pre.contains(name@) {
                    let k = choose|k: int| 0 <= k < pre.len() && pre[k] == name@;
                    assert(ext[k] == name@);
                }
            }
        }
        i = i + 1;
    }
    assert(views.subrange(0, n as int) =~= views);
    if !removed {
        let mut m = String::from_str("Company '");
        m.append(name);
        m.append("' not found in fund '");
        m.append(fund_id);
        m.append("'.");
        return Err(AppError::NotFound(m));
    }
    Ok(kept)
}

/// Every kept position holds a name other than the removed one, and every
/// position whose name differs is kept: removing a company deletes exactly
/// the companies with that name and keeps the others in order.
pub proof fn lemma_kept_positions(names: Seq<Seq<char>>, name: Seq<char>)
    ensures
        forall|k: int| 0 <= k < kept_positions(names, name).len() ==> {
            let p = #[trigger] kept_positions(names, name)[k];
            0 <= p < names.len() && names[p] != name
        },
        forall|p: int| 0 <= p < names.len() && names[p] != name ==> kept_positions(names, name).contains(p),
        forall|k: int, l: int| 0 <= k < l < kept_positions(names, name).len() ==>
            kept_positions(names, name)[k] < kept_positions(names, name)[l],
    decreases names.len(),
{
    if names.len() > 0 {
        let pre = names.drop_last();
        lemma_kept_positions(pre, name);
        let kp = kept_positions(pre, name);
        assert forall|p: int| 0 <= p < names.len() && names[p] != name implies kept_positions(names, name).contains(p) by {
            if p < names.len() - 1 {
                assert(pre[p] == names[p]);
                assert(kp.contains(p));
                let k = choose|k: int| 0 <= k < kp.len() && kp[k] == p;
                if names.last() != name {
                    assert(kept_positions(names, name)[k] == p);
                }
            } else {
                assert(kept_positions(names, name).last() == p);
            }
        }
    }
}

/// After a company named `name` was added to a fund whose company names
/// `names` did not include it, removing `name` keeps exactly the original
/// companies, in order.
pub proof fn lemma_add_then_remove(names: Seq<Seq<char>>, name: Seq<char>)
    requires
        !names.contains(name),
    ensures
        kept_positions(names.push(name), name) == Seq::new(names.len(), |i: int| i),
    decreases names.len(),
{
    assert(names.push(name).drop_last() =~= names);
    lemma_all_kept(names, name);
}

proof fn lemma_all_kept(names: Seq<Seq<char>>, name: Seq<char>)
    requires
        !names.contains(name),
    ensures
        kept_positions(names, name) == Seq::new(names.len(), |i: int| i),
    decreases names.len(),
{
    if names.len() == 0 {
        assert(kept_positions(names, name) =~= Seq::new(0, |i: int| i));
    } else {
        let pre = names.drop_last();
        assert(!pre.contains(name)) by {
            if pre.contains(name) {
                let k = choose|k: int| 0 <= k < pre.len() && pre[k] == name;
                assert(names[k] == name);
            }
        }
        lemma_all_kept(pre, name);
        assert(names.last() != name) by {
            assert(names[names.len() - 1] == names.last());
        }
        assert(kept_positions(names, name) =~= Seq::new(names.len(), |i: int| i));
    }
}

/// The entity a fund is reassigned to: the payload's id, trimmed.
pub fn reassignment_target(p: &UpdateFundEntityPayload) -> (r: String)
    ensures
        r@ == trim_spec(p.entity_id@),
{
    trim(p.entity_id.as_str())
}


/// Add `company`, named `name`, to the fund `fund_id` whose companies are
/// `companies`, named `names` in the same order: it goes last, unless a
/// company of the fund already has that name, which leaves the fund as it was.
pub fn add_company<T>(companies: &mut Vec<T>, names: &Vec<String>, company: T, name: &str, fund_id: &str) -> (r: Result<(), AppError>)
    ensures
        !names_of(names@).contains(name@) ==> (r is Ok && final(companies)@ == old(companies)@.push(company)),
        names_of(names@).contains(name@) ==> (r matches Err(AppError::Conflict(m)) && m@
            == "Company '"@ + name@ + "' already exists in fund '"@ + fund_id@ + "'."@
            && final(companies)@ == old(companies)@),
{
    check_new_company(names, name, fund_id)?;
    companies.push(company);
    Ok(())
}

} // verus!
