//! Messages exchanged with the AI copilot.
use vstd::prelude::*;

verus! {

/// One message of the copilot conversation.
#[derive(Debug)]
pub struct CopilotMessage {
    /// "user" or "ai".
    pub role: String,
    pub text: String,
    pub table: Option<Vec<Vec<String>>>,
    pub citations: Option<Vec<String>>,
    pub total: Option<String>,
}

/// Body of `POST /copilot/query`.
#[derive(Debug)]
pub struct CopilotQueryRequest {
    pub query: String,
}

/// A prompt suggestion shown in the copilot UI.
#[derive(Debug)]
pub struct CopilotSuggestion {
    pub text: String,
}

} // verus!
