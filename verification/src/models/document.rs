//! Uploaded documents.
use vstd::prelude::*;

verus! {

/// Metadata row of an uploaded document.
#[derive(Debug)]
pub struct Document {
    pub id: String,
    /// Tenant the document belongs to.
    pub organization_id: String,
    pub name: String,
    pub doc_type: String,
    pub fund: String,
    /// "Uploaded" | "Extracted" | "Needs Review" | "Approved" | "Posted"
    pub status: String,
    pub confidence: Option<u32>,
    pub date: String,
    pub size: String,
    pub fields: u32,
    pub extracted: u32,
    /// The sponsor the document is linked to, once classified.
    pub sponsor_id: Option<String>,
    /// The fund the document is linked to, once classified.
    pub fund_id: Option<String>,
}

/// Body of `PATCH /documents/{id}/status`.
#[derive(Debug)]
pub struct UpdateStatusRequest {
    pub status: String,
}

} // verus!
