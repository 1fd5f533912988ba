//! The document under review and its extracted fields.
use vstd::prelude::*;

verus! {

/// A document whose extracted fields are being reviewed.
#[derive(Debug)]
pub struct ReviewDocument {
    pub id: String,
    pub name: String,
    pub fund: String,
    pub doc_type: String,
    pub confidence: u32,
    pub fields: Vec<ReviewField>,
}

/// One extracted field.
#[derive(Debug)]
pub struct ReviewField {
    pub id: String,
    pub key: String,
    pub value: String,
    pub confidence: u32,
    pub page: u32,
    /// `None` = pending, `Some(true)` = approved, `Some(false)` = rejected.
    pub approved: Option<bool>,
    pub flagged: bool,
}

/// Body of `POST /review/{document_id}/fields/{field_id}`.
#[derive(Debug)]
pub struct FieldActionRequest {
    pub approved: bool,
}

} // verus!
