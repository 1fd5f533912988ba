//! The storage API's addressing and answers: table URLs, tenant-scoped
//! filters, the mapping of failed requests onto [`AppError`], and the row
//! count of a `Content-Range` header.
use vstd::prelude::*;
use vstd::string::*;

use crate::errors::AppError;
use crate::text::{
    all_digits, decimal, has_char, is_ascii_digit, lemma_decimal_digits, lemma_decimal_parses, parse_unsigned,
    parse_unsigned_spec,
};

verus! {

/// `s` without its trailing `/` characters.
pub open spec fn trim_trailing_slashes(s: Seq<char>) -> Seq<char>
    decreases s.len(),
{
    if s.len() > 0 && s.last() == '/' {
        trim_trailing_slashes(s.drop_last())
    } else {
        s
    }
}

/// The REST root of a project: its URL without trailing slashes, then `/rest/v1`.
pub open spec fn rest_base_url_spec(project_url: Seq<char>) -> Seq<char> {
    trim_trailing_slashes(project_url) + "/rest/v1"@
}

/// The REST root of the project at `project_url`.
pub fn rest_base_url(project_url: &str) -> (r: String)
    ensures
        r@ == rest_base_url_spec(project_url@),
{
    let n = project_url.unicode_len();
    let mut j = n;
    assert(project_url@.subrange(0, n as int) =~= project_url@);
    while j > 0 && project_url.get_char(j - 1) == '/'
        invariant
            j <= n,
            n == project_url@.len(),
            trim_trailing_slashes(project_url@) == trim_trailing_slashes(
                project_url@.subrange(0, j as int),
            ),
        decreases j,
    {
        assert(project_url@.subrange(0, j as int).drop_last() =~= project_url@.subrange(
            0,
            j - 1,
        ));
        j = j - 1;
    }
    let mut r = String::from_str(project_url.substring_char(0, j));
    r.append("/rest/v1");
    r
}

/// The storage settings read from `SUPABASE_URL` and
/// `SUPABASE_SERVICE_ROLE_KEY`: the REST root and the service key, or the
/// message naming the first variable that is missing.
pub fn storage_settings(project_url: Option<String>, service_key: Option<String>) -> (r: Result<
    (String, String),
    String,
>)
    ensures
        project_url is None ==> (r matches Err(m) && m@
            == "SUPABASE_URL is not set in the environment"@),
        project_url is Some && service_key is None ==> (r matches Err(m) && m@
            == "SUPABASE_SERVICE_ROLE_KEY is not set in the environment"@),
        project_url is Some && service_key is Some ==> (r matches Ok(p) && p.0@
            == rest_base_url_spec(project_url->0@) && p.1@ == service_key->0@),
{
    let url = match project_url {
        Some(u) => u,
        None => {
            return Err(String::from_str("SUPABASE_URL is not set in the environment"));
        },
    };
    let key = match service_key {
        Some(k) => k,
        None => {
            return Err(String::from_str("SUPABASE_SERVICE_ROLE_KEY is not set in the environment"));
        },
    };
    Ok((rest_base_url(url.as_str()), key))
}

/// The URL of `table` under the REST root `base`.
pub fn endpoint(base: &str, table: &str) -> (r: String)
    ensures
        r@ == base@ + "/"@ + table@,
{
    let mut r = String::from_str(base);
    r.append("/");
    r.append(table);
    r
}

/// The URL that reads the rows of `table` matching `filter`; an empty filter
/// reads every row.
pub fn select_url(base: &str, table: &str, filter: &str) -> (r: String)
    ensures
        filter@.len() == 0 ==> r@ == base@ + "/"@ + table@,
        filter@.len() > 0 ==> r@ == base@ + "/"@ + table@ + "?"@ + filter@,
{
    let mut r = endpoint(base, table);
    if filter.unicode_len() > 0 {
        r.append("?");
        r.append(filter);
    }
    r
}

/// The URL that reads the first row of `table` matching `filter`.
pub fn select_one_url(base: &str, table: &str, filter: &str) -> (r: String)
    ensures
        r@ == base@ + "/"@ + table@ + "?"@ + filter@ + "&limit=1"@,
{
    let mut r = endpoint(base, table);
    r.append("?");
    r.append(filter);
    r.append("&limit=1");
    r
}

/// The URL that updates or deletes the rows of `table` matching `filter`.
pub fn filtered_url(base: &str, table: &str, filter: &str) -> (r: String)
    ensures
        r@ == base@ + "/"@ + table@ + "?"@ + filter@,
{
    let mut r = endpoint(base, table);
    r.append("?");
    r.append(filter);
    r
}

/// The `Authorization` header value for the service key.
pub fn bearer(key: &str) -> (r: String)
    ensures
        r@ == "Bearer "@ + key@,
{
    let mut r = String::from_str("Bearer ");
    r.append(key);
    r
}

/// The filter clause that scopes a query to organization `org`.
pub open spec fn org_clause(org: Seq<char>) -> Seq<char> {
    "organization_id=eq."@ + org
}

/// Every row of organization `org`.
pub fn org_filter(org: &str) -> (r: String)
    ensures
        r@ == org_clause(org@),
{
    let mut r = String::from_str("organization_id=eq.");
    r.append(org);
    r
}

/// The row with id `id`, if it belongs to organization `org`.
pub fn scoped_id_filter(id: &str, org: &str) -> (r: String)
    ensures
        r@ == "id=eq."@ + id@ + "&organization_id=eq."@ + org@,
{
    let mut r = String::from_str("id=eq.");
    r.append(id);
    r.append("&organization_id=eq.");
    r.append(org);
    r
}

/// The rows whose column `column` is `value`, in organization `org`.
pub fn scoped_column_filter(column: &str, value: &str, org: &str) -> (r: String)
    ensures
        r@ == column@ + "=eq."@ + value@ + "&organization_id=eq."@ + org@,
{
    let mut r = String::from_str(column);
    r.append("=eq.");
    r.append(value);
    r.append("&organization_id=eq.");
    r.append(org);
    r
}

/// The error for a single-row request on `table` that matched no row.
pub fn row_not_found(table: &str, filter: &str) -> (r: AppError)
    ensures
        r matches AppError::NotFound(m) && m@ == table@ + " row not found for filter '"@
            + filter@ + "'"@,
{
    let mut m = String::from_str(table);
    m.append(" row not found for filter '");
    m.append(filter);
    m.append("'");
    AppError::NotFound(m)
}

/// An internal error whose message is `context`, a colon, and `detail`.
pub fn internal_error(context: &str, detail: &str) -> (r: AppError)
    ensures
        r matches AppError::Internal(m) && m@ == context@ + ": "@ + detail@,
{
    let mut m = String::from_str(context);
    m.append(": ");
    m.append(detail);
    AppError::Internal(m)
}

/// Name for the `message` field of the JSON object `body`: the string value
/// of its top-level `message` key, if `body` parses as JSON and has one.
pub uninterp spec fn pgrst_message(body: Seq<char>) -> Option<Seq<char>>;

/// Calls `serde_json::from_str::<serde_json::Value>` on `body` and reads the
/// string at key `message`.  The result depends on `body` alone and is named
/// [`pgrst_message`].
#[verifier::external_body]
fn parse_pgrst_message(body: &str) -> (r: Option<String>)
    ensures
        match r {
            Some(m) => pgrst_message(body@) == Some(m@),
            None => pgrst_message(body@) is None,
        },
{
    let v: serde_json::Value = serde_json::from_str(body).ok()?;
    v.get("message").and_then(|m| m.as_str()).map(|s| s.to_string())
}

/// The error a failed storage request on `table` is reported as, given the
/// response status code, its display text (`409 Conflict`), the body, and
/// the body's `message` field when it has one (`parsed`).
pub open spec fn http_error_spec(
    table: Seq<char>,
    status: u16,
    status_text: Seq<char>,
    body: Seq<char>,
    parsed: Option<Seq<char>>,
) -> (AppErrorKind, Seq<char>) {
    let msg = match parsed {
        Some(m) => m,
        None => body,
    };
    if status == 409 {
        (AppErrorKind::Conflict, msg)
    } else if status == 404 {
        (AppErrorKind::NotFound, msg)
    } else if status == 400 || status == 422 {
        (AppErrorKind::BadRequest, msg)
    } else if status == 401 || status == 403 {
        (AppErrorKind::Internal, "Storage auth failed"@)
    } else {
        (
            AppErrorKind::Internal,
            "Unexpected PostgREST status "@ + status_text + " for "@ + table + ": "@ + msg,
        )
    }
}

/// The kind of an [`AppError`].
#[derive(Debug, Clone, Copy, PartialEq, Eq)]
pub enum AppErrorKind {
    NotFound,
    BadRequest,
    Unauthorized,
    Conflict,
    Internal,
}

/// The kind and message of an error.
pub open spec fn kind_and_message(e: AppError) -> (AppErrorKind, Seq<char>) {
    match e {
        AppError::NotFound(m) => (AppErrorKind::NotFound, m@),
        AppError::BadRequest(m) => (AppErrorKind::BadRequest, m@),
        AppError::Unauthorized(m) => (AppErrorKind::Unauthorized, m@),
        AppError::Conflict(m) => (AppErrorKind::Conflict, m@),
        AppError::Internal(m) => (AppErrorKind::Internal, m@),
    }
}

/// The error a failed storage request is reported as (see [`http_error_spec`]).
pub fn classify_http_error(
    table: &str,
    status: u16,
    status_text: &str,
    body: &str,
    parsed: Option<String>,
) -> (r: AppError)
    ensures
        kind_and_message(r) == http_error_spec(
            table@,
            status,
            status_text@,
            body@,
            match parsed { Some(m) => Some(m@), None => None },
        ),
{
    let msg = match parsed {
        Some(m) => m,
        None => String::from_str(body),
    };
    if status == 409 {
        AppError::Conflict(msg)
    } else if status == 404 {
        AppError::NotFound(msg)
    } else if status == 400 || status == 422 {
        AppError::BadRequest(msg)
    } else if status == 401 || status == 403 {
        AppError::Internal(String::from_str("Storage auth failed"))
    } else {
        let mut m = String::from_str("Unexpected PostgREST status ");
        m.append(status_text);
        m.append(" for ");
        m.append(table);
        m.append(": ");
        m.append(msg.as_str());
        AppError::Internal(m)
    }
}

/// The error a failed storage request on `table` is reported as, reading
/// the `message` field of the body when it is a JSON object with one.
pub fn map_http_error(table: &str, status: u16, status_text: &str, body: &str) -> (r: AppError)
    ensures
        kind_and_message(r) == http_error_spec(
            table@,
            status,
            status_text@,
            body@,
            pgrst_message(body@),
        ),
{
    let parsed = parse_pgrst_message(body);
    classify_http_error(table, status, status_text, body, parsed)
}

/// Index of the first `c` in `s`, if any.
pub open spec fn first_index_of(s: Seq<char>, c: char) -> Option<int> {
    if exists|i: int| 0 <= i < s.len() && s[i] == c && forall|j: int| 0 <= j < i ==> s[j] != c {
        Some(choose|i: int| 0 <= i < s.len() && s[i] == c && forall|j: int| 0 <= j < i ==> s[j] != c)
    } else {
        None
    }
}

/// The second `/`-separated piece of `s`: the text between its first `/`
/// and the next one (or the end), as `s.split('/').nth(1)`.
pub open spec fn second_piece(s: Seq<char>) -> Option<Seq<char>> {
    match first_index_of(s, '/') {
        Some(i) => {
            let rest = s.subrange(i + 1, s.len() as int);
            match first_index_of(rest, '/') {
                Some(j) => Some(rest.subrange(0, j)),
                None => Some(rest),
            }
        },
        None => None,
    }
}

/// The row total a `Content-Range` header (`0-24/573`, `*/573`) reports:
/// the number after the first `/`, or 0 when the header is missing or
/// unreadable.
pub open spec fn content_range_total_spec(header: Option<Seq<char>>) -> u64 {
    match header {
        Some(h) => match second_piece(h) {
            Some(p) => match parse_unsigned_spec(p, 0xffff_ffff_ffff_ffff) {
                Some(v) => v as u64,
                None => 0,
            },
            None => 0,
        },
        None => 0,
    }
}

/// Index of the first `c` in `s` at or after `from`, or the length of `s`.
fn find_char_from(s: &str, c: char, from: usize) -> (r: usize)
    requires
        from <= s@.len(),
    ensures
        from <= r <= s@.len(),
        r < s@.len() ==> s@[r as int] == c,
        forall|j: int| from <= j < r ==> s@[j] != c,
{
    let n = s.unicode_len();
    let mut i = from;
    while i < n
        invariant
            from <= i <= n,
            n == s@.len(),
            forall|j: int| from <= j < i ==> s@[j] != c,
        decreases n - i,
    {
        if s.get_char(i) == c {
            return i;
        }
        i = i + 1;
    }
    i
}

proof fn lemma_first_index(s: Seq<char>, c: char, k: int)
    requires
        0 <= k <= s.len(),
        k < s.len() ==> s[k] == c,
        forall|j: int| 0 <= j < k ==> s[j] != c,
    ensures
        k < s.len() ==> first_index_of(s, c) == Some(k),
        k == s.len() ==> first_index_of(s, c) is None,
{
    if k < s.len() {
        assert(s[k] == c);
        let i = choose|i: int| 0 <= i < s.len() && s[i] == c && forall|j: int| 0 <= j < i ==> s[j] != c;
        assert(i == k) by {
            if i < k {
                assert(s[i] != c);
            }
            if i > k {
                assert(s[k] != c);
            }
        }
    }
}

/// The row total of a `Content-Range` header (see [`content_range_total_spec`]).
pub fn content_range_total(header: Option<String>) -> (r: u64)
    ensures
        r == content_range_total_spec(match header { Some(h) => Some(h@), None => None }),
{
    match header {
        None => 0,
        Some(h) => {
            let s = h.as_str();
            let n = s.unicode_len();
            let i = find_char_from(s, '/', 0);
            proof {
                lemma_first_index(s@, '/', i as int);
            }
            if i == n {
                return 0;
            }
            let j = find_char_from(s, '/', i + 1);
            let ghost rest = s@.subrange(i + 1, n as int);
            proof {
                assert forall|k: int| 0 <= k < j - (i + 1) implies rest[k] != '/' by {
                    assert(rest[k] == s@[k + i + 1]);
                }
                if j < n {
                    assert(rest[j - (i + 1)] == s@[j as int]);
                }
                lemma_first_index(rest, '/', j - (i + 1));
            }
            let piece = s.substring_char(i + 1, j);
            assert(piece@ =~= second_piece(s@)->0) by {
                if j < n {
                    assert(rest.subrange(0, j - (i + 1)) =~= s@.subrange(i + 1, j as int));
                } else {
                    assert(rest =~= s@.subrange(i + 1, j as int));
                }
            }
            match parse_unsigned(piece, 0xffff_ffff_ffff_ffff) {
                Some(v) => v,
                None => 0,
            }
        },
    }
}


/// A row total written in a `Content-Range` header is read back: for a
/// range part without `/` (`0-24`, `*`), the header `range/total` reports
/// `total`.
pub proof fn lemma_content_range_round_trip(range: Seq<char>, total: u64)
    requires
        !has_char(range, '/'),
    ensures
        content_range_total_spec(Some(range + "/"@ + decimal(total as nat))) == total,
{
    reveal_strlit("/");
    let d = decimal(total as nat);
    let s = range + "/"@ + d;
    lemma_decimal_digits(total as nat);
    lemma_decimal_parses(total as nat, 0xffff_ffff_ffff_ffff);
    assert forall|j: int| 0 <= j < range.len() implies s[j] != '/' by {
        assert(s[j] == range[j]);
    }
    assert(s[range.len() as int] == '/');
    lemma_first_index(s, '/', range.len() as int);
    let rest = s.subrange(range.len() as int + 1, s.len() as int);
    assert(rest =~= d);
    assert forall|j: int| 0 <= j < rest.len() implies rest[j] != '/' by {
        assert(all_digits(d));
        assert(is_ascii_digit(d[j]));
    }
    lemma_first_index(rest, '/', rest.len() as int);
}

} // verus!
