//! The AI copilot: prompt suggestions, and recording a query with its
//! (deterministic, placeholder) answer in the conversation history.
use vstd::prelude::*;
use vstd::string::*;

use crate::errors::AppError;
use crate::models::copilot::{CopilotMessage, CopilotQueryRequest, CopilotSuggestion};
use crate::text::{byte_len_spec, trim, trim_spec};

verus! {

/// Messages `2i` and `2i + 1` of `h` are a question and the copilot's answer
/// to it.
pub open spec fn pair_ok(h: Seq<CopilotMessage>, i: int) -> bool {
    &&& h[2 * i].role@ == "user"@
    &&& is_reply(h[2 * i + 1], h[2 * i].text@)
}

/// A history made of question/answer pairs: even length, each user message
/// followed by the copilot's answer to it.
pub open spec fn well_paired(h: Seq<CopilotMessage>) -> bool {
    &&& h.len() % 2 == 0
    &&& forall|i: int| 0 <= i < h.len() / 2 ==> #[trigger] pair_ok(h, i)
}

/// The conversation history when the server starts: empty, so trivially
/// made of question/answer pairs.
pub fn seed_history() -> (r: Vec<CopilotMessage>)
    ensures
        r@.len() == 0,
        well_paired(r@),
{
    Vec::new()
}

/// The prompt suggestions shown in the copilot UI.
pub open spec fn suggestion_texts() -> Seq<Seq<char>> {
    seq![
        "Total unfunded by asset class?"@,
        "Best performing fund by gross IRR?"@,
        "Show TVPI breakdown by sponsor"@,
        "What capital calls are due this quarter?"@,
        "Compare net IRR across all funds"@,
    ]
}

/// The prompt suggestions shown in the copilot UI.
pub fn seed_suggestions() -> (r: Vec<CopilotSuggestion>)
    ensures
        r@.map_values(|s: CopilotSuggestion| s.text@) == suggestion_texts(),
{
    let mut r: Vec<CopilotSuggestion> = Vec::new();
    r.push(CopilotSuggestion { text: String::from_str("Total unfunded by asset class?") });
    r.push(CopilotSuggestion { text: String::from_str("Best performing fund by gross IRR?") });
    r.push(CopilotSuggestion { text: String::from_str("Show TVPI breakdown by sponsor") });
    r.push(CopilotSuggestion { text: String::from_str("What capital calls are due this quarter?") });
    r.push(CopilotSuggestion { text: String::from_str("Compare net IRR across all funds") });
    assert(r@.map_values(|s: CopilotSuggestion| s.text@) =~= suggestion_texts());
    r
}

/// The message with which a query is refused, if any.
pub open spec fn query_error(query: Seq<char>) -> Option<Seq<char>> {
    let q = trim_spec(query);
    if q.len() == 0 {
        Some("Query must not be empty."@)
    } else if byte_len_spec(q) > 1000 {
        Some("Query exceeds maximum length of 1000 characters."@)
    } else {
        None
    }
}

/// The text of the answer to `query`, which quotes it.
pub open spec fn reply_text(query: Seq<char>) -> Seq<char> {
    "Based on the available portfolio data, I can see that \""@ + query
        + "\". Let me look into that for you. Currently tracking 5 investments across 5 themes with a total NAV of $32.1M."@
}

/// `m` is the user's message asking `query`.
pub open spec fn is_user_message(m: CopilotMessage, query: Seq<char>) -> bool {
    &&& m.role@ == "user"@
    &&& m.text@ == query
    &&& m.table is None
    &&& m.citations is None
    &&& m.total is None
}

/// `m` is the copilot's answer to `query`.
pub open spec fn is_reply(m: CopilotMessage, query: Seq<char>) -> bool {
    &&& m.role@ == "ai"@
    &&& m.text@ == reply_text(query)
    &&& m.table is None
    &&& m.citations matches Some(c) && c@.len() == 1 && c@[0]@ == "Portfolio Ledger · Latest"@
    &&& m.total is None
}

fn reply(query: &str) -> (r: CopilotMessage)
    ensures
        is_reply(r, query@),
{
    let mut text = String::from_str("Based on the available portfolio data, I can see that \"");
    text.append(query);
    text.append(
        "\". Let me look into that for you. Currently tracking 5 investments across 5 themes with a total NAV of $32.1M.",
    );
    let mut citations: Vec<String> = Vec::new();
    citations.push(String::from_str("Portfolio Ledger · Latest"));
    CopilotMessage {
        role: String::from_str("ai"),
        text,
        table: None,
        citations: Some(citations),
        total: None,
    }
}

/// Record a query in the history: the trimmed query as the user's message,
/// then the answer, which is also returned.  A refused query leaves the
/// history as it was.
pub fn record_query(history: &mut Vec<CopilotMessage>, req: &CopilotQueryRequest) -> (r: Result<CopilotMessage, AppError>)
    ensures
        match query_error(req.query@) {
            Some(m) => r matches Err(AppError::BadRequest(x)) && x@ == m && final(history)@ == old(history)@,
            None => r matches Ok(a) && {
                &&& is_reply(a, trim_spec(req.query@))
                &&& final(history)@.len() == old(history)@.len() + 2
                &&& final(history)@.subrange(0, old(history)@.len() as int) == old(history)@
                &&& is_user_message(final(history)@[old(history)@.len() as int], trim_spec(req.query@))
                &&& is_reply(final(history)@[old(history)@.len() + 1int], trim_spec(req.query@))
            },
        },
        well_paired(old(history)@) ==> well_paired(final(history)@),
{
    let q = trim(req.query.as_str());
    if q.as_str().unicode_len() == 0 {
        return Err(AppError::BadRequest(String::from_str("Query must not be empty.")));
    }
    if q.as_str().len() > 1000 {
        return Err(
            AppError::BadRequest(String::from_str("Query exceeds maximum length of 1000 characters.")),
        );
    }
    let user = CopilotMessage {
        role: String::from_str("user"),
        text: q.clone(),
        table: None,
        citations: None,
        total: None,
    };
    let ghost before = history@;
    history.push(user);
    history.push(reply(q.as_str()));
    assert(history@.subrange(0, before.len() as int) =~= before);
    proof {
        if well_paired(before) {
            let h = history@;
            assert forall|i: int| 0 <= i < h.len() / 2 implies #[trigger] pair_ok(h, i) by {
                if i < before.len() / 2 {
                    assert(pair_ok(before, i));
                    assert(h[2 * i] == before[2 * i]);
                    assert(h[2 * i + 1] == before[2 * i + 1]);
                } else {
                    assert(2 * i == before.len());
                }
            }
        }
    }
    Ok(reply(q.as_str()))
}

} // verus!
