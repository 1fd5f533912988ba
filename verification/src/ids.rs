//! Fresh identifiers and the current time, as the records need them.
use vstd::prelude::*;
use vstd::string::*;

use crate::text::{all_digits, is_ascii_digit};

verus! {

pub open spec fn is_lower_hex(c: char) -> bool {
    is_ascii_digit(c) || ('a' <= c && c <= 'f')
}

/// The "simple" rendering of a UUID: 32 lower-case hexadecimal digits.
pub open spec fn simple_uuid_shape(s: Seq<char>) -> bool {
    &&& s.len() == 32
    &&& forall|i: int| 0 <= i < 32 ==> is_lower_hex(#[trigger] s[i])
}

/// The hyphenated rendering of a UUID: 8-4-4-4-12 lower-case hexadecimal
/// digits separated by hyphens.
pub open spec fn hyphenated_uuid_shape(s: Seq<char>) -> bool {
    &&& s.len() == 36
    &&& forall|i: int|
        0 <= i < 36 ==> if i == 8 || i == 13 || i == 18 || i == 23 {
            #[trigger] s[i] == '-'
        } else {
            is_lower_hex(s[i])
        }
}

/// Calls `uuid::Uuid::new_v4()` and renders it with `simple()`.  The UUID is
/// random; the contract states only the shape of its rendering.
#[verifier::external_body]
fn uuid_v4_simple() -> (r: String)
    ensures
        simple_uuid_shape(r@),
{
    uuid::Uuid::new_v4().simple().to_string()
}

/// Calls `uuid::Uuid::new_v4()` and renders it with `to_string()`.  The UUID
/// is random; the contract states only the shape of its rendering.
#[verifier::external_body]
fn uuid_v4_hyphenated() -> (r: String)
    ensures
        hyphenated_uuid_shape(r@),
{
    uuid::Uuid::new_v4().to_string()
}

/// The English month abbreviations chrono writes for `%b`.
pub open spec fn month_abbreviations() -> Seq<Seq<char>> {
    seq![
        "Jan"@, "Feb"@, "Mar"@, "Apr"@, "May"@, "Jun"@,
        "Jul"@, "Aug"@, "Sep"@, "Oct"@, "Nov"@, "Dec"@,
    ]
}

/// A year as chrono writes `%Y`: four digits for years 0 to 9999, otherwise
/// a sign followed by at least four digits.
pub open spec fn year_text(y: Seq<char>) -> bool {
    ||| y.len() == 4 && all_digits(y)
    ||| y.len() >= 5 && (y[0] == '+' || y[0] == '-') && all_digits(y.drop_first())
}

/// A date label in the form `%b %d, %Y` ("Jan 05, 2025"): a month
/// abbreviation, a space, a two-digit day, a comma and a space, and the year.
pub open spec fn date_label_shape(s: Seq<char>) -> bool {
    &&& s.len() >= 12
    &&& month_abbreviations().contains(s.subrange(0, 3))
    &&& s[3] == ' '
    &&& is_ascii_digit(s[4])
    &&& is_ascii_digit(s[5])
    &&& s[6] == ','
    &&& s[7] == ' '
    &&& year_text(s.subrange(8, s.len() as int))
}

/// Calls `chrono::Utc::now()` and formats it as `%b %d, %Y`
/// ("Jan 05, 2025").  The date depends on the clock; what holds of every
/// outcome is the shape chrono's formatter writes: an English month
/// abbreviation, the zero-padded day, and the year (four digits, or a sign
/// and at least four digits outside 0 to 9999).
#[verifier::external_body]
pub(crate) fn utc_today_label() -> (r: String)
    ensures
        date_label_shape(r@),
{
    chrono::Utc::now().format("%b %d, %Y").to_string()
}

/// Calls `chrono::Utc::now()` and renders it with `to_rfc3339()`.  The value
/// depends on the clock; nothing is stated of it.
#[verifier::external_body]
pub(crate) fn utc_now_rfc3339() -> (r: String) {
    chrono::Utc::now().to_rfc3339()
}

/// `s` is `prefix` followed by the simple rendering of a UUID.
pub open spec fn is_prefixed_id(s: Seq<char>, prefix: Seq<char>) -> bool {
    &&& s.len() == prefix.len() + 32
    &&& s.subrange(0, prefix.len() as int) == prefix
    &&& simple_uuid_shape(s.subrange(prefix.len() as int, s.len() as int))
}

/// `prefix` followed by the simple rendering of a fresh random UUID.
fn prefixed_id(prefix: &str) -> (r: String)
    ensures
        is_prefixed_id(r@, prefix@),
{
    let u = uuid_v4_simple();
    let mut r = String::from_str(prefix);
    r.append(u.as_str());
    assert(r@.subrange(0, prefix@.len() as int) =~= prefix@);
    assert(r@.subrange(prefix@.len() as int, r@.len() as int) =~= u@);
    r
}

/// A fresh entity id: `e-` and a random UUID.
pub fn new_entity_id() -> (r: String)
    ensures
        is_prefixed_id(r@, "e-"@),
{
    prefixed_id("e-")
}

/// A fresh fund id: `f-` and a random UUID.
pub fn new_fund_id() -> (r: String)
    ensures
        is_prefixed_id(r@, "f-"@),
{
    prefixed_id("f-")
}

/// A fresh sponsor id: `s-` and a random UUID.
pub fn new_sponsor_id() -> (r: String)
    ensures
        is_prefixed_id(r@, "s-"@),
{
    prefixed_id("s-")
}

/// A fresh document id: a random UUID in hyphenated form.
pub fn new_document_id() -> (r: String)
    ensures
        hyphenated_uuid_shape(r@),
{
    uuid_v4_hyphenated()
}


/// The keys the server stamps on a record it stores: its id and the
/// organization it belongs to, never taken from the client.
#[derive(Debug)]
pub struct RecordKeys {
    pub id: String,
    pub organization_id: String,
}

/// The keys of a new entity of organization `organization_id`: a fresh
/// `e-` id and that organization.
pub fn new_entity_keys(organization_id: &str) -> (r: RecordKeys)
    ensures
        is_prefixed_id(r.id@, "e-"@),
        r.organization_id@ == organization_id@,
{
    RecordKeys { id: new_entity_id(), organization_id: String::from_str(organization_id) }
}

/// The keys of a new fund of organization `organization_id`: a fresh `f-` id
/// and that organization.
pub fn new_fund_keys(organization_id: &str) -> (r: RecordKeys)
    ensures
        is_prefixed_id(r.id@, "f-"@),
        r.organization_id@ == organization_id@,
{
    RecordKeys { id: new_fund_id(), organization_id: String::from_str(organization_id) }
}

/// The keys of the stored record `id` being replaced by a caller of
/// organization `organization_id`: the id from the path and the caller's
/// organization, whatever the submitted body says.
pub fn existing_keys(id: &str, organization_id: &str) -> (r: RecordKeys)
    ensures
        r.id@ == id@,
        r.organization_id@ == organization_id@,
{
    RecordKeys { id: String::from_str(id), organization_id: String::from_str(organization_id) }
}

} // verus!
