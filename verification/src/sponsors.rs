//! Sponsors: listing filters, grouping an organization's funds by sponsor,
//! the integer parts of a sponsor's metrics, and the checks on a new sponsor.
//!
//! A fund's amounts and rates are floating-point numbers; their totals and
//! weighted averages are computed by the caller over the groups made here.
use vstd::prelude::*;
use vstd::string::*;

use crate::errors::AppError;
use crate::models::portfolio::Sponsor;
use crate::text::{
    byte_len_spec, decimal, decimal_string, is_ascii_hexdigit, is_ws, is_ws_char, str_eq, to_uppercase,
    trim, trim_spec, upper_case,
};

verus! {

/// Query of `GET /sponsors`.
#[derive(Debug)]
pub struct SponsorFilter {
    pub entity: Option<String>,
}

/// Query of `GET /funds`.
#[derive(Debug)]
pub struct FundFilter {
    pub entity: Option<String>,
    pub sponsor: Option<String>,
}

/// Body of `POST /sponsors`.
#[derive(Debug)]
pub struct CreateSponsorPayload {
    pub name: String,
    pub initials: String,
    pub country: String,
    pub color: String,
}

/// The entities of organization `org`, oldest first.
pub fn entities_filter(org: &str) -> (r: String)
    ensures
        r@ == "organization_id=eq."@ + org@ + "&order=created_at.asc"@,
{
    let mut r = String::from_str("organization_id=eq.");
    r.append(org);
    r.append("&order=created_at.asc");
    r
}

/// The funds `GET /sponsors` reads: those of organization `org`, of one
/// entity when the query names one.
pub fn sponsor_funds_filter(org: &str, filter: &SponsorFilter) -> (r: String)
    ensures
        filter.entity is None ==> r@ == "organization_id=eq."@ + org@,
        filter.entity matches Some(e) ==> r@ == "organization_id=eq."@ + org@ + "&entity_id=eq."@ + e@,
{
    let mut r = String::from_str("organization_id=eq.");
    r.append(org);
    if let Some(e) = &filter.entity {
        r.append("&entity_id=eq.");
        r.append(e.as_str());
    }
    r
}

/// The funds `GET /funds` reads: those of organization `org`, narrowed to
/// the entity and to the sponsor the query names.
pub fn funds_filter(org: &str, filter: &FundFilter) -> (r: String)
    ensures
        r@ == "organization_id=eq."@ + org@ + (match filter.entity {
            Some(e) => "&entity_id=eq."@ + e@,
            None => Seq::empty(),
        }) + (match filter.sponsor {
            Some(s) => "&sponsor_id=eq."@ + s@,
            None => Seq::empty(),
        }),
{
    let mut r = String::from_str("organization_id=eq.");
    r.append(org);
    let ghost base = r@;
    if let Some(e) = &filter.entity {
        r.append("&entity_id=eq.");
        r.append(e.as_str());
    }
    assert(r@ == base + (match filter.entity {
        Some(e) => "&entity_id=eq."@ + e@,
        None => Seq::<char>::empty(),
    }));
    let ghost mid = r@;
    if let Some(s) = &filter.sponsor {
        r.append("&sponsor_id=eq.");
        r.append(s.as_str());
    }
    assert(r@ == mid + (match filter.sponsor {
        Some(s) => "&sponsor_id=eq."@ + s@,
        None => Seq::<char>::empty(),
    }));
    r
}

/// The positions, in order, at which `ids` holds `id`.
pub open spec fn positions_of(ids: Seq<Seq<char>>, id: Seq<char>) -> Seq<int>
    decreases ids.len(),
{
    if ids.len() == 0 {
        Seq::empty()
    } else if ids.last() == id {
        positions_of(ids.drop_last(), id).push(ids.len() - 1)
    } else {
        positions_of(ids.drop_last(), id)
    }
}

/// The sponsors listed, with their funds: for each sponsor in order (by
/// position in `sponsors`), the positions of the funds whose sponsor it is;
/// when `require_funds`, a sponsor without funds is left out.
pub open spec fn grouping(
    sponsors: Seq<Seq<char>>,
    fund_sponsors: Seq<Seq<char>>,
    require_funds: bool,
) -> Seq<(int, Seq<int>)>
    decreases sponsors.len(),
{
    if sponsors.len() == 0 {
        Seq::empty()
    } else {
        let rest = grouping(sponsors.drop_last(), fund_sponsors, require_funds);
        let mine = positions_of(fund_sponsors, sponsors.last());
        if require_funds && mine.len() == 0 {
            rest
        } else {
            rest.push((sponsors.len() - 1, mine))
        }
    }
}

pub open spec fn ids_of(v: Seq<String>) -> Seq<Seq<char>> {
    v.map_values(|s: String| s@)
}

/// A sponsor and the positions of its funds.
#[derive(Debug)]
pub struct SponsorFunds {
    pub sponsor: usize,
    pub funds: Vec<usize>,
}

pub open spec fn group_view(g: SponsorFunds) -> (int, Seq<int>) {
    (g.sponsor as int, g.funds@.map_values(|k: usize| k as int))
}

/// The positions at which `ids` holds `id`.
fn positions(ids: &Vec<String>, id: &str) -> (r: Vec<usize>)
    ensures
        r@.map_values(|k: usize| k as int) == positions_of(ids_of(ids@), id@),
{
    let ghost views = ids_of(ids@);
    let n = ids.len();
    let mut r: Vec<usize> = Vec::new();
    let mut i: usize = 0;
    assert(views.subrange(0, 0) =~= Seq::<Seq<char>>::empty());
    while i < n
        invariant
            0 <= i <= n,
            n == ids@.len(),
            views == ids_of(ids@),
            r@.map_values(|k: usize| k as int) == positions_of(views.subrange(0, i as int), id@),
        decreases n - i,
    {
        let ghost pre = views.subrange(0, i as int);
        let ghost ext = views.subrange(0, i + 1);
        assert(ext.drop_last() =~= pre);
        assert(ext.last() == ids@[i as int]@);
        if str_eq(ids[i].as_str(), id) {
            r.push(i);
            assert(r@.map_values(|k: usize| k as int) =~= positions_of(pre, id@).push(i as int));
        }
        i = i + 1;
    }
    assert(views.subrange(0, n as int) =~= views);
    r
}

/// Group the funds by sponsor: see [`grouping`].  `sponsor_ids` are the ids
/// of the sponsors, `fund_sponsor_ids` the sponsor id of each fund.
pub fn group_funds(sponsor_ids: &Vec<String>, fund_sponsor_ids: &Vec<String>, require_funds: bool) -> (r: Vec<SponsorFunds>)
    ensures
        r@.map_values(|g: SponsorFunds| group_view(g)) == grouping(
            ids_of(sponsor_ids@),
            ids_of(fund_sponsor_ids@),
            require_funds,
        ),
{
    let ghost sv = ids_of(sponsor_ids@);
    let ghost fv = ids_of(fund_sponsor_ids@);
    let n = sponsor_ids.len();
    let mut r: Vec<SponsorFunds> = Vec::new();
    let mut i: usize = 0;
    assert(sv.subrange(0, 0) =~= Seq::<Seq<char>>::empty());
    while i < n
        invariant
            0 <= i <= n,
            n == sponsor_ids@.len(),
            sv == ids_of(sponsor_ids@),
            fv == ids_of(fund_sponsor_ids@),
            r@.map_values(|g: SponsorFunds| group_view(g)) == grouping(
                sv.subrange(0, i as int),
                fv,
                require_funds,
            ),
        decreases n - i,
    {
        let ghost pre = sv.subrange(0, i as int);
        let ghost ext = sv.subrange(0, i + 1);
        assert(ext.drop_last() =~= pre);
        assert(ext.last() == sponsor_ids@[i as int]@);
        let mine = positions(fund_sponsor_ids, sponsor_ids[i].as_str());
        if !(require_funds && mine.len() == 0) {
            let ghost before = r@.map_values(|g: SponsorFunds| group_view(g));
            r.push(SponsorFunds { sponsor: i, funds: mine });
            assert(r@.map_values(|g: SponsorFunds| group_view(g)) =~= before.push(
                (i as int, positions_of(fv, sponsor_ids@[i as int]@)),
            ));
        }
        i = i + 1;
    }
    assert(sv.subrange(0, n as int) =~= sv);
    r
}

/// What groups are listed: with `require_funds` exactly the sponsors that
/// have at least one fund, otherwise every sponsor; each with all and only
/// the funds whose sponsor id is its id.
pub proof fn lemma_grouping(sponsors: Seq<Seq<char>>, funds: Seq<Seq<char>>, require_funds: bool)
    ensures
        forall|k: int| 0 <= k < grouping(sponsors, funds, require_funds).len() ==> {
            let g = #[trigger] grouping(sponsors, funds, require_funds)[k];
            &&& 0 <= g.0 < sponsors.len()
            &&& g.1 == positions_of(funds, sponsors[g.0])
            &&& require_funds ==> g.1.len() > 0
        },
        !require_funds ==> grouping(sponsors, funds, require_funds).len() == sponsors.len(),
    decreases sponsors.len(),
{
    if sponsors.len() > 0 {
        let pre = sponsors.drop_last();
        lemma_grouping(pre, funds, require_funds);
        let rest = grouping(pre, funds, require_funds);
        assert forall|k: int| 0 <= k < rest.len() implies sponsors[(#[trigger] rest[k]).0] == pre[rest[k].0] by {
        }
    }
}

/// The funds listed for a sponsor are exactly the funds with its id, in order.
pub proof fn lemma_positions_of(ids: Seq<Seq<char>>, id: Seq<char>)
    ensures
        forall|k: int| 0 <= k < positions_of(ids, id).len() ==> {
            let p = #[trigger] positions_of(ids, id)[k];
            0 <= p < ids.len() && ids[p] == id
        },
        forall|p: int| 0 <= p < ids.len() && ids[p] == id ==> positions_of(ids, id).contains(p),
    decreases ids.len(),
{
    if ids.len() > 0 {
        let pre = ids.drop_last();
        lemma_positions_of(pre, id);
        assert forall|p: int| 0 <= p < ids.len() && ids[p] == id implies positions_of(ids, id).contains(p) by {
            if p < ids.len() - 1 {
                assert(pre[p] == ids[p]);
                let k = choose|k: int| 0 <= k < positions_of(pre, id).len() && positions_of(pre, id)[k] == p;
                assert(positions_of(ids, id)[k] == p);
            } else {
                assert(positions_of(ids, id).last() == p);
            }
        }
    }
}

/// The facts about a fund that a sponsor's integer metrics need.
#[derive(Debug)]
pub struct FundFacts {
    pub asset_class: String,
    pub company_count: usize,
}

/// The integer metrics of a sponsor over its funds.
#[derive(Debug)]
pub struct SponsorCounts {
    pub fund_count: usize,
    pub company_count: usize,
    /// The funds' asset classes, each once, in order of first appearance.
    pub asset_classes: Vec<String>,
}

/// The elements of `s`, each once, in order of first appearance.
pub open spec fn distinct(s: Seq<Seq<char>>) -> Seq<Seq<char>>
    decreases s.len(),
{
    if s.len() == 0 {
        Seq::empty()
    } else if distinct(s.drop_last()).contains(s.last()) {
        distinct(s.drop_last())
    } else {
        distinct(s.drop_last()).push(s.last())
    }
}

pub open spec fn total_companies(funds: Seq<FundFacts>) -> nat
    decreases funds.len(),
{
    if funds.len() == 0 {
        0
    } else {
        total_companies(funds.drop_last()) + (funds.last().company_count as nat)
    }
}

pub open spec fn classes_of(funds: Seq<FundFacts>) -> Seq<Seq<char>> {
    funds.map_values(|f: FundFacts| f.asset_class@)
}

fn contains_str(v: &Vec<String>, s: &str) -> (r: bool)
    ensures
        r == ids_of(v@).contains(s@),
{
    let n = v.len();
    let mut i: usize = 0;
    while i < n
        invariant
            0 <= i <= n,
            n == v@.len(),
            forall|j: int| 0 <= j < i ==> v@[j]@ != s@,
        decreases n - i,
    {
        if str_eq(v[i].as_str(), s) {
            assert(ids_of(v@)[i as int] == s@);
            return true;
        }
        i = i + 1;
    }
    proof {
        if ids_of(v@).contains(s@) {
            let k = choose|k: int| 0 <= k < ids_of(v@).len() && ids_of(v@)[k] == s@;
            assert(v@[k]@ == s@);
        }
    }
    false
}

/// The number of funds, their total number of companies, and their distinct
/// asset classes.
pub fn aggregate_counts(funds: &Vec<FundFacts>) -> (r: SponsorCounts)
    requires
        total_companies(funds@) <= usize::MAX,
    ensures
        r.fund_count == funds@.len(),
        r.company_count == total_companies(funds@),
        ids_of(r.asset_classes@) == distinct(classes_of(funds@)),
{
    let n = funds.len();
    let mut companies: usize = 0;
    let mut classes: Vec<String> = Vec::new();
    let mut i: usize = 0;
    assert(funds@.subrange(0, 0) =~= Seq::<FundFacts>::empty());
    assert(classes_of(funds@).subrange(0, 0) =~= Seq::<Seq<char>>::empty());
    while i < n
        invariant
            0 <= i <= n,
            n == funds@.len(),
            total_companies(funds@) <= usize::MAX,
            companies == total_companies(funds@.subrange(0, i as int)),
            ids_of(classes@) == distinct(classes_of(funds@).subrange(0, i as int)),
        decreases n - i,
    {
        let ghost pre = funds@.subrange(0, i as int);
        let ghost ext = funds@.subrange(0, i + 1);
        assert(ext.drop_last() =~= pre);
        assert(classes_of(funds@).subrange(0, i + 1).drop_last() =~= classes_of(funds@).subrange(
            0,
            i as int,
        ));
        proof {
            lemma_total_prefix(funds@, i + 1);
        }
        companies = companies + funds[i].company_count;
        let c = funds[i].asset_class.as_str();
        if !contains_str(&classes, c) {
            let ghost before = ids_of(classes@);
            classes.push(funds[i].asset_class.clone());
            assert(ids_of(classes@) =~= before.push(funds@[i as int].asset_class@));
        }
        i = i + 1;
    }
    assert(funds@.subrange(0, n as int) =~= funds@);
    assert(classes_of(funds@).subrange(0, n as int) =~= classes_of(funds@));
    SponsorCounts { fund_count: n, company_count: companies, asset_classes: classes }
}

/// The distinct asset classes name each class of the funds exactly once:
/// nothing occurs twice, and a class occurs exactly when some fund has it.
pub proof fn lemma_distinct(s: Seq<Seq<char>>)
    ensures
        distinct(s).no_duplicates(),
        forall|x: Seq<char>| #[trigger] distinct(s).contains(x) <==> s.contains(x),
    decreases s.len(),
{
    if s.len() > 0 {
        let pre = s.drop_last();
        lemma_distinct(pre);
        assert forall|x: Seq<char>| #[trigger] distinct(s).contains(x) <==> s.contains(x) by {
            if s.contains(x) && x != s.last() {
                let k = choose|k: int| 0 <= k < s.len() && s[k] == x;
                assert(pre[k] == x);
            }
            if pre.contains(x) {
                let k = choose|k: int| 0 <= k < pre.len() && pre[k] == x;
                assert(s[k] == x);
            }
            if x == s.last() {
                assert(s[s.len() - 1] == x);
            }
            if !distinct(pre).contains(s.last()) {
                let d = distinct(pre);
                if d.push(s.last()).contains(x) && x != s.last() {
                    let k = choose|k: int| 0 <= k < d.push(s.last()).len() && d.push(s.last())[k] == x;
                    assert(d[k] == x);
                }
                if d.contains(x) {
                    let k = choose|k: int| 0 <= k < d.len() && d[k] == x;
                    assert(d.push(s.last())[k] == x);
                }
                assert(d.push(s.last())[d.len() as int] == s.last());
            }
        }
    }
}

proof fn lemma_total_prefix(funds: Seq<FundFacts>, k: int)
    requires
        0 <= k <= funds.len(),
    ensures
        total_companies(funds.subrange(0, k)) <= total_companies(funds),
    decreases funds.len(),
{
    if k < funds.len() {
        lemma_total_prefix(funds.drop_last(), k);
        assert(funds.drop_last().subrange(0, k) =~= funds.subrange(0, k));
    } else {
        assert(funds.subrange(0, k) =~= funds);
    }
}

/// Name for what `char::is_alphanumeric` answers: whether `c` is alphabetic
/// or numeric in the sense of Unicode.
pub uninterp spec fn alphanumeric(c: char) -> bool;

/// Calls `char::is_alphanumeric`; the answer is named [`alphanumeric`].
#[verifier::external_body]
fn is_alphanumeric(c: char) -> (r: bool)
    ensures
        r == alphanumeric(c),
{
    c.is_alphanumeric()
}

/// Valid initials: 1 to 4 characters once trimmed, every character
/// alphanumeric or whitespace.
pub open spec fn valid_initials(s: Seq<char>) -> bool {
    &&& 1 <= trim_spec(s).len() <= 4
    &&& forall|i: int| 0 <= i < s.len() ==> alphanumeric(#[trigger] s[i]) || is_ws(s[i])
}

/// `true` when `s` is valid initials (see [`valid_initials`]).
pub fn is_valid_initials(s: &str) -> (r: bool)
    ensures
        r == valid_initials(s@),
{
    let t = trim(s);
    let count = t.as_str().unicode_len();
    if count < 1 || count > 4 {
        return false;
    }
    let n = s.unicode_len();
    let mut i: usize = 0;
    while i < n
        invariant
            0 <= i <= n,
            n == s@.len(),
            forall|j: int| 0 <= j < i ==> alphanumeric(#[trigger] s@[j]) || is_ws(s@[j]),
        decreases n - i,
    {
        let c = s.get_char(i);
        if !(is_alphanumeric(c) || is_ws_char(c)) {
            return false;
        }
        i = i + 1;
    }
    true
}

/// A valid color: `#` then 3 or 6 hexadecimal digits.
pub open spec fn valid_color(s: Seq<char>) -> bool {
    &&& s.len() > 0
    &&& s[0] == '#'
    &&& (byte_len_spec(s.drop_first()) == 3 || byte_len_spec(s.drop_first()) == 6)
    &&& forall|i: int| 1 <= i < s.len() ==> is_ascii_hexdigit(#[trigger] s[i])
}

/// `true` when `s` is a hex color like `#8B7BD8` or `#ABC`.
pub fn is_valid_color(s: &str) -> (r: bool)
    ensures
        r == valid_color(s@),
{
    let n = s.unicode_len();
    if n == 0 || s.get_char(0) != '#' {
        return false;
    }
    let hex = s.substring_char(1, n);
    assert(hex@ =~= s@.drop_first());
    let len = hex.len();
    if len != 3 && len != 6 {
        return false;
    }
    let mut i: usize = 1;
    while i < n
        invariant
            1 <= i <= n,
            n == s@.len(),
            forall|j: int| 1 <= j < i ==> is_ascii_hexdigit(#[trigger] s@[j]),
        decreases n - i,
    {
        let c = s.get_char(i);
        if !(('0' <= c && c <= '9') || ('a' <= c && c <= 'f') || ('A' <= c && c <= 'F')) {
            return false;
        }
        i = i + 1;
    }
    true
}

/// The fields of a new sponsor that passed validation.
#[derive(Debug)]
pub struct SponsorFields {
    pub name: String,
    pub initials: String,
    pub country: String,
    pub color: String,
}

/// The message with which a new sponsor is refused, if any.
pub open spec fn sponsor_error(p: CreateSponsorPayload) -> Option<Seq<char>> {
    let name = trim_spec(p.name@);
    let initials = upper_case(trim_spec(p.initials@));
    let country = trim_spec(p.country@);
    let color = trim_spec(p.color@);
    if name.len() == 0 || byte_len_spec(name) > 200 {
        Some("name must be 1–200 characters"@)
    } else if !valid_initials(initials) {
        Some("initials must be 1–4 alphanumeric characters"@)
    } else if byte_len_spec(country) > 200 {
        Some("country must be at most 200 characters"@)
    } else if !valid_color(color) {
        Some("color must be a hex string like #8B7BD8 or #ABC"@)
    } else {
        None
    }
}

/// Check a new sponsor; returns its fields trimmed, initials upper-cased.
pub fn validate_sponsor(p: &CreateSponsorPayload) -> (r: Result<SponsorFields, AppError>)
    ensures
        match sponsor_error(*p) {
            Some(m) => r matches Err(AppError::BadRequest(x)) && x@ == m,
            None => r matches Ok(f) && {
                &&& f.name@ == trim_spec(p.name@)
                &&& f.initials@ == upper_case(trim_spec(p.initials@))
                &&& f.country@ == trim_spec(p.country@)
                &&& f.color@ == trim_spec(p.color@)
            },
        },
{
    let name = trim(p.name.as_str());
    let ti = trim(p.initials.as_str());
    let initials = to_uppercase(ti.as_str());
    let country = trim(p.country.as_str());
    let color = trim(p.color.as_str());
    if name.as_str().unicode_len() == 0 || name.as_str().len() > 200 {
        return Err(AppError::BadRequest(String::from_str("name must be 1–200 characters")));
    }
    if !is_valid_initials(initials.as_str()) {
        return Err(
            AppError::BadRequest(String::from_str("initials must be 1–4 alphanumeric characters")),
        );
    }
    if country.as_str().len() > 200 {
        return Err(
            AppError::BadRequest(String::from_str("country must be at most 200 characters")),
        );
    }
    if !is_valid_color(color.as_str()) {
        return Err(
            AppError::BadRequest(
                String::from_str("color must be a hex string like #8B7BD8 or #ABC"),
            ),
        );
    }
    Ok(SponsorFields { name, initials, country, color })
}

/// The sponsor row to insert: the server-chosen id and organization, and
/// the validated fields.
pub fn new_sponsor_row(id: String, organization_id: &str, fields: SponsorFields) -> (r: Sponsor)
    ensures
        r.id == id,
        r.organization_id@ == organization_id@,
        r.name == fields.name,
        r.initials == fields.initials,
        r.country == fields.country,
        r.color == fields.color,
{
    Sponsor {
        id,
        organization_id: String::from_str(organization_id),
        name: fields.name,
        initials: fields.initials,
        country: fields.country,
        color: fields.color,
    }
}

/// Refuse to delete sponsor `sponsor_id` while `attached` funds refer to it.
pub fn sponsor_deletion_guard(sponsor_id: &str, attached: u64) -> (r: Result<(), AppError>)
    ensures
        attached == 0 ==> r is Ok,
        attached > 0 ==> (r matches Err(AppError::Conflict(m)) && m@ == "Cannot delete sponsor '"@
            + sponsor_id@ + "': "@ + decimal(attached as nat) + " fund(s) still reference it."@),
{
    if attached > 0 {
        let mut m = String::from_str("Cannot delete sponsor '");
        m.append(sponsor_id);
        m.append("': ");
        let n = decimal_string(attached);
        m.append(n.as_str());
        m.append(" fund(s) still reference it.");
        Err(AppError::Conflict(m))
    } else {
        Ok(())
    }
}


/// Some group of `groups` is the sponsor at position `k`.
pub open spec fn lists_sponsor(groups: Seq<(int, Seq<int>)>, k: int) -> bool {
    exists|i: int| 0 <= i < groups.len() && groups[i].0 == k
}

/// Some fund of `funds` (given by sponsor ids) has the sponsor id `id`.
pub open spec fn has_fund_of(funds: Seq<Seq<char>>, id: Seq<char>) -> bool {
    exists|j: int| 0 <= j < funds.len() && funds[j] == id
}

/// What the sponsor listing shows, in terms of the ids alone.  Every listed
/// group is a sponsor (by position) with exactly the funds whose sponsor id
/// is its id; with `require_funds` a sponsor is listed exactly when some fund
/// has its id, and without it every sponsor is listed.
pub proof fn lemma_listing(sponsors: Seq<Seq<char>>, funds: Seq<Seq<char>>, require_funds: bool)
    ensures
        forall|i: int| 0 <= i < grouping(sponsors, funds, require_funds).len() ==> {
            let g = #[trigger] grouping(sponsors, funds, require_funds)[i];
            &&& 0 <= g.0 < sponsors.len()
            &&& forall|m: int| 0 <= m < g.1.len() ==> 0 <= #[trigger] g.1[m] < funds.len()
                && funds[g.1[m]] == sponsors[g.0]
            &&& forall|j: int| 0 <= j < funds.len() && funds[j] == sponsors[g.0] ==> g.1.contains(j)
        },
        forall|k: int| 0 <= k < sponsors.len() ==> (#[trigger] lists_sponsor(
            grouping(sponsors, funds, require_funds),
            k,
        ) <==> (!require_funds || has_fund_of(funds, sponsors[k]))),
    decreases sponsors.len(),
{
    lemma_grouping(sponsors, funds, require_funds);
    let gr = grouping(sponsors, funds, require_funds);
    assert forall|i: int| 0 <= i < gr.len() implies {
        let g = #[trigger] gr[i];
        &&& forall|m: int| 0 <= m < g.1.len() ==> 0 <= #[trigger] g.1[m] < funds.len()
            && funds[g.1[m]] == sponsors[g.0]
        &&& forall|j: int| 0 <= j < funds.len() && funds[j] == sponsors[g.0] ==> g.1.contains(j)
    } by {
        lemma_positions_of(funds, sponsors[gr[i].0]);
    }
    if sponsors.len() > 0 {
        let pre = sponsors.drop_last();
        let n = sponsors.len() - 1;
        lemma_listing(pre, funds, require_funds);
        lemma_grouping(pre, funds, require_funds);
        let rest = grouping(pre, funds, require_funds);
        let mine = positions_of(funds, sponsors.last());
        lemma_positions_of(funds, sponsors.last());
        assert(mine.len() > 0 <==> has_fund_of(funds, sponsors[n])) by {
            if mine.len() > 0 {
                assert(funds[mine[0]] == sponsors[n]);
            }
            if exists|j: int| 0 <= j < funds.len() && funds[j] == sponsors[n] {
                let j = choose|j: int| 0 <= j < funds.len() && funds[j] == sponsors[n];
                assert(mine.contains(j));
            }
        }
        assert forall|k: int| 0 <= k < sponsors.len() implies (#[trigger] lists_sponsor(gr, k)
            <==> (!require_funds || has_fund_of(funds, sponsors[k]))) by {
            if k < n {
                assert(sponsors[k] == pre[k]);
                assert(lists_sponsor(rest, k) <==> (!require_funds || has_fund_of(funds, pre[k])));
                if exists|i: int| 0 <= i < gr.len() && (#[trigger] gr[i]).0 == k {
                    let i = choose|i: int| 0 <= i < gr.len() && (#[trigger] gr[i]).0 == k;
                    if i < rest.len() {
                        assert(gr[i] == rest[i]);
                    } else {
                        assert(gr[i].0 == n);
                    }
                    assert(exists|i2: int| 0 <= i2 < rest.len() && (#[trigger] rest[i2]).0 == k);
                }
                if exists|i: int| 0 <= i < rest.len() && (#[trigger] rest[i]).0 == k {
                    let i = choose|i: int| 0 <= i < rest.len() && (#[trigger] rest[i]).0 == k;
                    assert(gr[i] == rest[i]);
                }
            } else {
                assert(k == n);
                assert forall|i: int| 0 <= i < rest.len() implies (#[trigger] rest[i]).0 != k by {
                    assert(rest[i].0 < pre.len());
                }
                if exists|i: int| 0 <= i < gr.len() && (#[trigger] gr[i]).0 == k {
                    let i = choose|i: int| 0 <= i < gr.len() && (#[trigger] gr[i]).0 == k;
                    if i < rest.len() {
                        assert(gr[i] == rest[i]);
                    }
                }
                if !(require_funds && mine.len() == 0) {
                    assert(gr[rest.len() as int].0 == k);
                }
            }
        }
    }
}

/// A sponsor's company count is the plain sum of its funds' company counts:
/// none for no fund, each fund adding exactly its own count, and the counts
/// of two lists of funds adding up.
pub proof fn lemma_company_total(funds: Seq<FundFacts>, more: Seq<FundFacts>, f: FundFacts)
    ensures
        total_companies(Seq::<FundFacts>::empty()) == 0,
        total_companies(seq![f]) == f.company_count,
        total_companies(funds.push(f)) == total_companies(funds) + f.company_count,
        total_companies(funds + more) == total_companies(funds) + total_companies(more),
    decreases more.len(),
{
    assert(funds.push(f).drop_last() =~= funds);
    assert(seq![f].drop_last() =~= Seq::<FundFacts>::empty());
    if more.len() > 0 {
        lemma_company_total(funds, more.drop_last(), f);
        assert((funds + more).drop_last() =~= funds + more.drop_last());
        assert((funds + more).last() == more.last());
    } else {
        assert(funds + more =~= funds);
    }
}

} // verus!
