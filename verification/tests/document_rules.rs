use atlas_backend::documents::{
    accept_upload, check_chunk, check_document_status, documents_filter, new_document,
    stored_file_name, text_field_value, upload_file_name, upload_part, uploaded_document,
    DocumentFilter, TextField, UploadForm, UploadPart, MAX_FILE_SIZE,
};
use atlas_backend::errors::AppError;

fn bad_request<T: std::fmt::Debug>(r: Result<T, AppError>) -> String {
    match r {
        Err(AppError::BadRequest(m)) => m,
        other => panic!("expected BadRequest, got {other:?}"),
    }
}

fn form(name: Option<&str>, doc_type: Option<&str>, fund: Option<&str>) -> UploadForm {
    UploadForm {
        file_name: name.map(|s| s.to_string()),
        file_bytes: vec![1, 2, 3],
        doc_type: doc_type.map(|s| s.to_string()),
        fund: fund.map(|s| s.to_string()),
    }
}

#[test]
fn document_statuses_accepted() {
    for s in ["Uploaded", "Extracted", "Needs Review", "Approved", "Posted"] {
        assert!(check_document_status(s).is_ok(), "{s}");
    }
    assert_eq!(
        bad_request(check_document_status("approved")),
        "Invalid status 'approved'. Must be one of: Uploaded, Extracted, Needs Review, Approved, Posted"
    );
}

#[test]
fn document_listing_filter() {
    assert_eq!(
        documents_filter("o1", &DocumentFilter { status: None }),
        "organization_id=eq.o1&order=created_at.desc"
    );
    assert_eq!(
        documents_filter("o1", &DocumentFilter { status: Some(String::new()) }),
        "organization_id=eq.o1&order=created_at.desc"
    );
    assert_eq!(
        documents_filter("o1", &DocumentFilter { status: Some("Posted".into()) }),
        "organization_id=eq.o1&status=eq.Posted&order=created_at.desc"
    );
}

#[test]
fn chunk_limit_is_fifty_mebibytes() {
    assert_eq!(MAX_FILE_SIZE, 50 * 1024 * 1024);
    assert!(check_chunk(0, MAX_FILE_SIZE).is_ok());
    assert!(check_chunk(MAX_FILE_SIZE - 10, 10).is_ok());
    assert_eq!(bad_request(check_chunk(MAX_FILE_SIZE, 1)), "File exceeds maximum size of 50 MB");
    assert_eq!(bad_request(check_chunk(usize::MAX, usize::MAX)), "File exceeds maximum size of 50 MB");
}

#[test]
fn text_fields_decode() {
    assert_eq!(text_field_value(TextField::DocType, b"Capital Call".to_vec()).unwrap(), "Capital Call");
    assert_eq!(text_field_value(TextField::Fund, "Fonds é".as_bytes().to_vec()).unwrap(), "Fonds é");
    assert_eq!(bad_request(text_field_value(TextField::Fund, vec![0xff, 0xfe])), "Invalid UTF-8 in fund");
    assert_eq!(
        bad_request(text_field_value(TextField::DocType, Vec::new())),
        "doc_type must be 1–200 characters"
    );
    assert_eq!(
        bad_request(text_field_value(TextField::Fund, vec![b'a'; 201])),
        "fund must be 1–200 characters"
    );
    assert!(text_field_value(TextField::Fund, vec![b'a'; 200]).is_ok());
}

#[test]
fn upload_checks() {
    let ok = accept_upload(form(Some("Report.Q1.PDF"), Some("Statement"), Some("Fund I"))).unwrap();
    assert_eq!(ok.extension, "pdf");
    assert_eq!(ok.file_name, "Report.Q1.PDF");
    assert_eq!(ok.bytes, vec![1, 2, 3]);
    assert_eq!(ok.doc_type, "Statement");
    assert_eq!(ok.fund, "Fund I");
    assert_eq!(accept_upload(form(Some("a.xlsx"), Some("d"), Some("f"))).unwrap().extension, "xlsx");

    assert_eq!(bad_request(accept_upload(form(None, None, None))), "Missing 'file' field");
    assert_eq!(bad_request(accept_upload(form(Some("a.pdf"), None, None))), "Missing 'doc_type' field");
    assert_eq!(bad_request(accept_upload(form(Some("a.pdf"), Some("d"), None))), "Missing 'fund' field");
    assert_eq!(
        bad_request(accept_upload(form(Some("notes.txt"), Some("d"), Some("f")))),
        "Unsupported file type '.txt'. Allowed: pdf, xlsx"
    );
    assert_eq!(
        bad_request(accept_upload(form(Some("README"), Some("d"), Some("f")))),
        "Unsupported file type '.'. Allowed: pdf, xlsx"
    );
    assert_eq!(
        bad_request(accept_upload(form(Some(".pdf"), Some("d"), Some("f")))),
        "Unsupported file type '.'. Allowed: pdf, xlsx"
    );
}

#[test]
fn upload_parts_by_name() {
    assert_eq!(upload_part(Some("file")).unwrap(), UploadPart::File);
    assert_eq!(upload_part(Some("doc_type")).unwrap(), UploadPart::Text(TextField::DocType));
    assert_eq!(upload_part(Some("fund")).unwrap(), UploadPart::Text(TextField::Fund));
    assert_eq!(upload_part(Some("other")).unwrap(), UploadPart::Ignored);
    assert_eq!(bad_request(upload_part(None)), "Missing field name");
    assert_eq!(upload_file_name(true, Some("x.pdf".into())).unwrap(), "x.pdf");
    assert_eq!(bad_request(upload_file_name(false, Some("x.pdf".into()))), "Missing content disposition");
    assert_eq!(bad_request(upload_file_name(true, None)), "Missing filename");
}

#[test]
fn document_rows() {
    assert_eq!(stored_file_name("abc", "pdf"), "abc.pdf");
    let up = accept_upload(UploadForm {
        file_name: Some("big.pdf".into()),
        file_bytes: vec![0; 2048],
        doc_type: Some("K-1".into()),
        fund: Some("Fund II".into()),
    })
    .unwrap();
    let d = new_document("id-1".into(), "org-1", &up, "Jan 02, 2025".into());
    assert_eq!(d.id, "id-1");
    assert_eq!(d.organization_id, "org-1");
    assert_eq!(d.name, "big.pdf");
    assert_eq!(d.doc_type, "K-1");
    assert_eq!(d.fund, "Fund II");
    assert_eq!(d.status, "Uploaded");
    assert_eq!(d.confidence, None);
    assert_eq!(d.date, "Jan 02, 2025");
    assert_eq!(d.size, "2.0 KB");
    assert_eq!(d.fields, 0);
    assert_eq!(d.extracted, 0);

    let fresh = uploaded_document("org-2", &up);
    assert_eq!(fresh.id.len(), 36);
    assert_eq!(fresh.id.matches('-').count(), 4);
    assert_eq!(fresh.organization_id, "org-2");
    assert_eq!(fresh.status, "Uploaded");
    assert_eq!(fresh.size, "2.0 KB");
    let months = ["Jan", "Feb", "Mar", "Apr", "May", "Jun", "Jul", "Aug", "Sep", "Oct", "Nov", "Dec"];
    let date: Vec<char> = fresh.date.chars().collect();
    assert_eq!(date.len(), 12);
    assert!(months.contains(&&fresh.date[0..3]));
    assert_eq!(date[3], ' ');
    assert!(date[4].is_ascii_digit() && date[5].is_ascii_digit());
    assert_eq!(&fresh.date[6..8], ", ");
    assert!(date[8..].iter().all(|c| c.is_ascii_digit()));
    let again = uploaded_document("org-2", &up);
    assert_ne!(fresh.id, again.id);
}
