//! Documents: status changes, listing filters, and the rules of an upload.
use std::path::Path;
use vstd::prelude::*;
use vstd::string::*;
use vstd::utf8::{decode_utf8, encode_utf8, encode_utf8_decode_utf8, encode_utf8_valid_utf8, valid_utf8};

use crate::errors::AppError;
use crate::ids::{date_label_shape, hyphenated_uuid_shape, new_document_id, utc_today_label};
use crate::models::document::Document;
use crate::text::{byte_len_spec, decimal, decimal_string, lower_case, str_eq, to_lowercase};

verus! {

/// The statuses a document can be given.
pub open spec fn document_statuses() -> Seq<Seq<char>> {
    seq!["Uploaded"@, "Extracted"@, "Needs Review"@, "Approved"@, "Posted"@]
}

/// Query of `GET /documents`.
#[derive(Debug)]
pub struct DocumentFilter {
    pub status: Option<String>,
}

/// Check a requested document status.
pub fn check_document_status(status: &str) -> (r: Result<(), AppError>)
    ensures
        document_statuses().contains(status@) ==> r is Ok,
        !document_statuses().contains(status@) ==> (r matches Err(AppError::BadRequest(m))
            && m@ == "Invalid status '"@ + status@
            + "'. Must be one of: Uploaded, Extracted, Needs Review, Approved, Posted"@),
{
    let ok = str_eq(status, "Uploaded") || str_eq(status, "Extracted") || str_eq(
        status,
        "Needs Review",
    ) || str_eq(status, "Approved") || str_eq(status, "Posted");
    proof {
        if document_statuses().contains(status@) {
            let k = choose|k: int| 0 <= k < 5 && document_statuses()[k] == status@;
            assert(0 <= k < 5);
        }
        if ok {
            if status@ == "Uploaded"@ {
                assert(document_statuses()[0] == status@);
            } else if status@ == "Extracted"@ {
                assert(document_statuses()[1] == status@);
            } else if status@ == "Needs Review"@ {
                assert(document_statuses()[2] == status@);
            } else if status@ == "Approved"@ {
                assert(document_statuses()[3] == status@);
            } else {
                assert(document_statuses()[4] == status@);
            }
        }
    }
    if ok {
        Ok(())
    } else {
        let mut m = String::from_str("Invalid status '");
        m.append(status);
        m.append("'. Must be one of: Uploaded, Extracted, Needs Review, Approved, Posted");
        Err(AppError::BadRequest(m))
    }
}

/// The filter of `GET /documents`: the caller's organization, the status
/// when one is given and non-empty, newest first.
pub open spec fn documents_filter_spec(org: Seq<char>, status: Option<Seq<char>>) -> Seq<char> {
    "organization_id=eq."@ + org + (if status matches Some(s) && s.len() > 0 {
        "&status=eq."@ + status->0
    } else {
        Seq::empty()
    }) + "&order=created_at.desc"@
}

/// The table filter that lists the documents of organization `org`.
pub fn documents_filter(org: &str, filter: &DocumentFilter) -> (r: String)
    ensures
        r@ == documents_filter_spec(
            org@,
            match filter.status { Some(s) => Some(s@), None => None },
        ),
{
    let mut r = String::from_str("organization_id=eq.");
    r.append(org);
    if let Some(s) = &filter.status {
        if s.as_str().unicode_len() > 0 {
            r.append("&status=eq.");
            r.append(s.as_str());
        }
    }
    r.append("&order=created_at.desc");
    r
}

/// Largest accepted upload: 50 MiB.
pub const MAX_FILE_SIZE: usize = 52428800;

/// Check that a chunk of `chunk` bytes may be added to the `received` bytes
/// of a file already read.
pub fn check_chunk(received: usize, chunk: usize) -> (r: Result<(), AppError>)
    ensures
        received + chunk <= MAX_FILE_SIZE ==> r is Ok,
        received + chunk > MAX_FILE_SIZE ==> (r matches Err(AppError::BadRequest(m)) && m@
            == "File exceeds maximum size of 50 MB"@),
{
    if (received as u128) + (chunk as u128) > MAX_FILE_SIZE as u128 {
        Err(AppError::BadRequest(String::from_str("File exceeds maximum size of 50 MB")))
    } else {
        Ok(())
    }
}

/// Calls `String::from_utf8`: the text the bytes encode, or `None` exactly
/// when they are not valid UTF-8, as its documentation states.
#[verifier::external_body]
fn string_from_utf8(bytes: Vec<u8>) -> (r: Option<String>)
    ensures
        r is Some <==> valid_utf8(bytes@),
        r matches Some(s) ==> encode_utf8(s@) == bytes@,
{
    String::from_utf8(bytes).ok()
}

/// The text fields of an upload form besides the file.
#[derive(Debug, Clone, Copy, PartialEq, Eq)]
pub enum TextField {
    DocType,
    Fund,
}

pub open spec fn field_label(f: TextField) -> Seq<char> {
    match f {
        TextField::DocType => "doc_type"@,
        TextField::Fund => "fund"@,
    }
}

/// The message with which the value of a text field is refused, if any.
pub open spec fn text_field_error(field: TextField, bytes: Seq<u8>) -> Option<Seq<char>> {
    if !valid_utf8(bytes) {
        Some("Invalid UTF-8 in "@ + field_label(field))
    } else if bytes.len() == 0 || bytes.len() > 200 {
        Some(field_label(field) + " must be 1–200 characters"@)
    } else {
        None
    }
}

/// Decode and check the value of a text field of the upload form: valid
/// UTF-8 of 1 to 200 bytes.
pub fn text_field_value(field: TextField, bytes: Vec<u8>) -> (r: Result<String, AppError>)
    ensures
        match text_field_error(field, bytes@) {
            Some(m) => r matches Err(AppError::BadRequest(x)) && x@ == m,
            None => r matches Ok(s) && s@ == decode_utf8(bytes@),
        },
{
    let ghost b = bytes@;
    let n = bytes.len();
    let label = match field {
        TextField::DocType => "doc_type",
        TextField::Fund => "fund",
    };
    match string_from_utf8(bytes) {
        None => {
            let mut m = String::from_str("Invalid UTF-8 in ");
            m.append(label);
            Err(AppError::BadRequest(m))
        },
        Some(s) => {
            proof {
                encode_utf8_decode_utf8(s@);
                encode_utf8_valid_utf8(s@);
            }
            assert(s@.len() == 0 <==> b.len() == 0) by {
                if s@.len() == 0 {
                    assert(encode_utf8(s@) =~= Seq::<u8>::empty());
                }
                if b.len() == 0 {
                    assert(decode_utf8(b) =~= Seq::<char>::empty());
                }
            }
            assert(byte_len_spec(s@) == n);
            if s.as_str().unicode_len() == 0 || s.as_str().len() > 200 {
                let mut m = String::from_str(label);
                m.append(" must be 1–200 characters");
                Err(AppError::BadRequest(m))
            } else {
                Ok(s)
            }
        },
    }
}

/// Name for what `Path::extension` returns for the path `s`: the text after
/// the last `.` of the file name, if the file name has one not at its start.
pub uninterp spec fn path_extension(s: Seq<char>) -> Option<Seq<char>>;

/// Calls `Path::new(s).extension()` and converts the result to a `String`
/// (a `&str` path has a UTF-8 extension).  The result is named
/// [`path_extension`] of the path.
#[verifier::external_body]
fn file_extension(s: &str) -> (r: Option<String>)
    ensures
        match r {
            Some(e) => path_extension(s@) == Some(e@),
            None => path_extension(s@) is None,
        },
{
    Path::new(s).extension().and_then(|e| e.to_str()).map(|e| e.to_string())
}

/// The extension an upload is filed under: the file name's extension,
/// lower-cased, or empty when it has none.
pub open spec fn upload_extension(filename: Seq<char>) -> Seq<char> {
    match path_extension(filename) {
        Some(e) => lower_case(e),
        None => Seq::empty(),
    }
}

pub open spec fn allowed_extension(e: Seq<char>) -> bool {
    e == "pdf"@ || e == "xlsx"@
}

/// What an upload form held once read: the file (name and bytes) and the
/// two text fields, each absent when the form did not carry it.
#[derive(Debug)]
pub struct UploadForm {
    pub file_name: Option<String>,
    pub file_bytes: Vec<u8>,
    pub doc_type: Option<String>,
    pub fund: Option<String>,
}

/// An upload that passed every check.
#[derive(Debug)]
pub struct AcceptedUpload {
    pub file_name: String,
    pub bytes: Vec<u8>,
    pub doc_type: String,
    pub fund: String,
    /// Lower-case extension, `pdf` or `xlsx`.
    pub extension: String,
}

/// The message with which a read upload form is refused, if any.
pub open spec fn upload_error(form: UploadForm) -> Option<Seq<char>> {
    if form.file_name is None {
        Some("Missing 'file' field"@)
    } else if form.doc_type is None {
        Some("Missing 'doc_type' field"@)
    } else if form.fund is None {
        Some("Missing 'fund' field"@)
    } else if !allowed_extension(upload_extension(form.file_name->0@)) {
        Some("Unsupported file type '."@ + upload_extension(form.file_name->0@)
            + "'. Allowed: pdf, xlsx"@)
    } else {
        None
    }
}

/// Check a read upload form: every field present, and a PDF or XLSX file.
pub fn accept_upload(form: UploadForm) -> (r: Result<AcceptedUpload, AppError>)
    ensures
        match upload_error(form) {
            Some(m) => r matches Err(AppError::BadRequest(x)) && x@ == m,
            None => r matches Ok(u) && {
                &&& u.file_name == form.file_name->0
                &&& u.bytes@ == form.file_bytes@
                &&& u.doc_type == form.doc_type->0
                &&& u.fund == form.fund->0
                &&& u.extension@ == upload_extension(form.file_name->0@)
            },
        },
{
    let file_name = match form.file_name {
        Some(f) => f,
        None => {
            return Err(AppError::BadRequest(String::from_str("Missing 'file' field")));
        },
    };
    let doc_type = match form.doc_type {
        Some(d) => d,
        None => {
            return Err(AppError::BadRequest(String::from_str("Missing 'doc_type' field")));
        },
    };
    let fund = match form.fund {
        Some(f) => f,
        None => {
            return Err(AppError::BadRequest(String::from_str("Missing 'fund' field")));
        },
    };
    let extension = match file_extension(file_name.as_str()) {
        Some(e) => to_lowercase(e.as_str()),
        None => String::new(),
    };
    if !(str_eq(extension.as_str(), "pdf") || str_eq(extension.as_str(), "xlsx")) {
        let mut m = String::from_str("Unsupported file type '.");
        m.append(extension.as_str());
        m.append("'. Allowed: pdf, xlsx");
        return Err(AppError::BadRequest(m));
    }
    Ok(AcceptedUpload { file_name, bytes: form.file_bytes, doc_type, fund, extension })
}

/// The name a stored upload gets: its id and extension.
pub fn stored_file_name(file_id: &str, extension: &str) -> (r: String)
    ensures
        r@ == file_id@ + "."@ + extension@,
{
    let mut r = String::from_str(file_id);
    r.append(".");
    r.append(extension);
    r
}

/// `n / d` rounded to the nearest integer, ties to the even one.
pub open spec fn round_half_even(n: nat, d: nat) -> nat
    recommends
        d > 0,
{
    let q = n / d;
    let r = n % d;
    if 2 * r > d || (2 * r == d && q % 2 == 1) {
        q + 1
    } else {
        q
    }
}

/// The power of two that `n` must be divided by to fit in 53 bits: the
/// spacing of the `f64` values near `n`.
pub open spec fn f64_spacing(n: nat) -> nat
    decreases n,
{
    if n < 0x20000000000000 {
        1
    } else {
        2 * f64_spacing(n / 2)
    }
}

/// The value of `n as f64`: `n` rounded to the nearest `f64`, ties to even.
pub open spec fn as_f64(n: nat) -> nat {
    round_half_even(n, f64_spacing(n)) * f64_spacing(n)
}

/// A number of tenths written with one decimal, as `{:.1}` writes it.
pub open spec fn one_decimal(tenths: nat) -> Seq<char> {
    decimal(tenths / 10) + "."@ + decimal(tenths % 10)
}

/// The label of a size of `bytes` bytes: whole bytes below 1 KiB, else
/// kibibytes below 1 MiB, else mebibytes, with one decimal rounded half to
/// even as `format!("{:.1}", bytes as f64 / unit)` does.
pub open spec fn file_size_label(bytes: nat) -> Seq<char> {
    if bytes < 1024 {
        decimal(bytes) + " B"@
    } else if bytes < 1048576 {
        one_decimal(round_half_even(bytes * 10, 1024)) + " KB"@
    } else {
        one_decimal(round_half_even(as_f64(bytes) * 10, 1048576)) + " MB"@
    }
}

fn round_half_even_exec(n: u128, d: u128) -> (r: u128)
    requires
        d > 0,
        d < 0x10000000000000000,
        n < 0x1000000000000000000000000000000,
    ensures
        r == round_half_even(n as nat, d as nat),
        r <= n / d + 1,
{
    let q = n / d;
    let rem = n % d;
    if 2 * rem > d || (2 * rem == d && q % 2 == 1) {
        q + 1
    } else {
        q
    }
}

fn one_decimal_exec(tenths: u128) -> (r: String)
    requires
        tenths < 0x10000000000000000,
    ensures
        r@ == one_decimal(tenths as nat),
{
    let mut r = decimal_string((tenths / 10) as u64);
    r.append(".");
    let d = decimal_string((tenths % 10) as u64);
    r.append(d.as_str());
    r
}

/// The spacing of the `f64` values near `n`.
fn f64_spacing_exec(n: u128) -> (r: u128)
    requires
        n < 0x10000000000000000,
    ensures
        r == f64_spacing(n as nat),
        1 <= r <= 0x1000,
{
    let mut d: u128 = 1;
    let mut m: u128 = n;
    while m >= 0x20000000000000
        invariant
            1 <= d <= 0x1000,
            m == n / d,
            n < 0x10000000000000000,
            f64_spacing(n as nat) == d * f64_spacing(m as nat),
            m * d <= n,
            n < 0x10000000000000000,
            d * 0x20000000000000 <= 2 * 0x10000000000000000,
        decreases m,
    {
        proof {
            vstd::arithmetic::div_mod::lemma_div_denominator(n as int, d as int, 2);
            assert(m >= 0x20000000000000);
            assert(m * d <= n);
            assert(d * 0x20000000000000 <= n) by (nonlinear_arith)
                requires
                    m >= 0x20000000000000,
                    m * d <= n,
                    d >= 1,
            ;
            assert((m / 2) * (d * 2) <= n) by (nonlinear_arith)
                requires
                    m * d <= n,
                    d >= 1,
            ;
            assert(f64_spacing(m as nat) == 2 * f64_spacing((m / 2) as nat));
            assert(d * (2 * f64_spacing((m / 2) as nat)) == (d * 2) * f64_spacing((m / 2) as nat))
                by (nonlinear_arith);
        }
        m = m / 2;
        d = d * 2;
    }
    proof {
        assert(f64_spacing(m as nat) == 1);
        assert(d * f64_spacing(m as nat) == d) by (nonlinear_arith)
            requires
                f64_spacing(m as nat) == 1,
        ;
    }
    d
}

/// The size of an upload as shown on its document: see [`file_size_label`].
pub fn format_file_size(bytes: usize) -> (r: String)
    ensures
        r@ == file_size_label(bytes as nat),
{
    if bytes < 1024 {
        let mut r = decimal_string(bytes as u64);
        r.append(" B");
        r
    } else if bytes < 1048576 {
        let t = round_half_even_exec((bytes as u128) * 10, 1024);
        assert(t <= 10240) by (nonlinear_arith)
            requires
                t == round_half_even((bytes as nat) * 10, 1024),
                bytes < 1048576,
        ;
        let mut r = one_decimal_exec(t);
        r.append(" KB");
        r
    } else {
        let b = bytes as u128;
        let d = f64_spacing_exec(b);
        let q = round_half_even_exec(b, d);
        assert(q * d <= b + d) by (nonlinear_arith)
            requires
                q <= b / d + 1,
                d >= 1,
        {
            assert((b / d) * d <= b) by (nonlinear_arith)
                requires d >= 1;
        }
        let f = q * d;
        assert(f <= 0x10000000000001000);
        let t = round_half_even_exec(f * 10, 1048576);
        assert(t < 0x10000000000000000) by (nonlinear_arith)
            requires
                t == round_half_even((f as nat) * 10, 1048576),
                f <= 0x10000000000001000,
        ;
        let mut r = one_decimal_exec(t);
        r.append(" MB");
        r
    }
}

/// The metadata row of an accepted upload, before it is stored: status
/// `Uploaded`, not yet classified or extracted.
pub fn new_document(
    id: String,
    organization_id: &str,
    upload: &AcceptedUpload,
    date: String,
) -> (r: Document)
    ensures
        r.id == id,
        r.organization_id@ == organization_id@,
        r.name@ == upload.file_name@,
        r.doc_type@ == upload.doc_type@,
        r.fund@ == upload.fund@,
        r.status@ == "Uploaded"@,
        r.confidence is None,
        r.date == date,
        r.size@ == file_size_label(upload.bytes@.len()),
        r.fields == 0,
        r.extracted == 0,
        r.sponsor_id is None,
        r.fund_id is None,
{
    Document {
        id,
        organization_id: String::from_str(organization_id),
        name: upload.file_name.clone(),
        doc_type: upload.doc_type.clone(),
        fund: upload.fund.clone(),
        status: String::from_str("Uploaded"),
        confidence: None,
        date,
        size: format_file_size(upload.bytes.len()),
        fields: 0,
        extracted: 0,
        sponsor_id: None,
        fund_id: None,
    }
}

/// The metadata row of an accepted upload with a fresh random id and
/// today's date; the caller stores the bytes under
/// [`stored_file_name`]`(id, extension)`.
pub fn uploaded_document(organization_id: &str, upload: &AcceptedUpload) -> (r: Document)
    ensures
        hyphenated_uuid_shape(r.id@),
        date_label_shape(r.date@),
        r.organization_id@ == organization_id@,
        r.name@ == upload.file_name@,
        r.doc_type@ == upload.doc_type@,
        r.fund@ == upload.fund@,
        r.status@ == "Uploaded"@,
        r.confidence is None,
        r.size@ == file_size_label(upload.bytes@.len()),
        r.fields == 0,
        r.extracted == 0,
        r.sponsor_id is None,
        r.fund_id is None,
{
    let id = new_document_id();
    let date = utc_today_label();
    new_document(id, organization_id, upload, date)
}

/// What a part of the upload form is, by its name.
#[derive(Debug, Clone, Copy, PartialEq, Eq)]
pub enum UploadPart {
    File,
    Text(TextField),
    Ignored,
}

/// Classify a part of the upload form by its name; a part without a name
/// is refused.
pub fn upload_part(name: Option<&str>) -> (r: Result<UploadPart, AppError>)
    ensures
        match name {
            None => r matches Err(AppError::BadRequest(m)) && m@ == "Missing field name"@,
            Some(n) => r matches Ok(p) && p == (if n@ == "file"@ {
                UploadPart::File
            } else if n@ == "doc_type"@ {
                UploadPart::Text(TextField::DocType)
            } else if n@ == "fund"@ {
                UploadPart::Text(TextField::Fund)
            } else {
                UploadPart::Ignored
            }),
        },
{
    match name {
        None => Err(AppError::BadRequest(String::from_str("Missing field name"))),
        Some(n) => if str_eq(n, "file") {
            Ok(UploadPart::File)
        } else if str_eq(n, "doc_type") {
            Ok(UploadPart::Text(TextField::DocType))
        } else if str_eq(n, "fund") {
            Ok(UploadPart::Text(TextField::Fund))
        } else {
            Ok(UploadPart::Ignored)
        },
    }
}

/// The file name of the `file` part, from its content disposition (absent
/// when the part has none) and the file name that carries.
pub fn upload_file_name(has_disposition: bool, file_name: Option<String>) -> (r: Result<String, AppError>)
    ensures
        !has_disposition ==> (r matches Err(AppError::BadRequest(m)) && m@
            == "Missing content disposition"@),
        has_disposition && file_name is None ==> (r matches Err(AppError::BadRequest(m)) && m@
            == "Missing filename"@),
        has_disposition && file_name is Some ==> (r matches Ok(f) && f == file_name->0),
{
    if !has_disposition {
        return Err(AppError::BadRequest(String::from_str("Missing content disposition")));
    }
    match file_name {
        Some(f) => Ok(f),
        None => Err(AppError::BadRequest(String::from_str("Missing filename"))),
    }
}

} // verus!
