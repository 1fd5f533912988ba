//! The document under review: looking it up, and recording a user's
//! decision on one of its fields.
use vstd::prelude::*;
use vstd::string::*;

use crate::errors::AppError;
use crate::models::review::{ReviewDocument, ReviewField};
use crate::text::str_eq;

verus! {

/// The review document before any document is sent for review: every text
/// empty (the empty id marks that no review is pending, so no id matches
/// it), no fields.
pub fn seed_review() -> (r: ReviewDocument)
    ensures
        r.id@ == Seq::<char>::empty(),
        r.name@ == Seq::<char>::empty(),
        r.fund@ == Seq::<char>::empty(),
        r.doc_type@ == Seq::<char>::empty(),
        r.confidence == 0,
        r.fields@.len() == 0,
{
    ReviewDocument {
        id: String::new(),
        name: String::new(),
        fund: String::new(),
        doc_type: String::new(),
        confidence: 0,
        fields: Vec::new(),
    }
}

/// The error for a review document id that is not the one under review.
pub open spec fn document_not_found(document_id: Seq<char>) -> Seq<char> {
    "Review document '"@ + document_id + "' not found."@
}

/// `true` when a document is under review and `document_id` names it; the
/// empty id of the seed marks that no review is pending, and matches nothing.
pub open spec fn is_under_review(review: ReviewDocument, document_id: Seq<char>) -> bool {
    review.id@.len() > 0 && review.id@ == document_id
}

/// Check that `document_id` names the document under review.
pub fn find_review(review: &ReviewDocument, document_id: &str) -> (r: Result<(), AppError>)
    ensures
        is_under_review(*review, document_id@) ==> r is Ok,
        !is_under_review(*review, document_id@) ==> (r matches Err(AppError::NotFound(m)) && m@
            == document_not_found(document_id@)),
{
    if review.id.as_str().unicode_len() > 0 && str_eq(review.id.as_str(), document_id) {
        Ok(())
    } else {
        let mut m = String::from_str("Review document '");
        m.append(document_id);
        m.append("' not found.");
        Err(AppError::NotFound(m))
    }
}

/// Position of the first field of `fields` with id `id`, if any.
pub open spec fn field_position(fields: Seq<ReviewField>, id: Seq<char>) -> Option<int> {
    if exists|i: int| 0 <= i < fields.len() && fields[i].id@ == id && forall|j: int| 0 <= j < i ==> fields[j].id@ != id {
        Some(choose|i: int| 0 <= i < fields.len() && fields[i].id@ == id && forall|j: int| 0 <= j < i ==> fields[j].id@ != id)
    } else {
        None
    }
}

/// `f` with the user's decision `approved` recorded.
pub open spec fn decided(f: ReviewField, approved: bool) -> ReviewField {
    ReviewField { approved: Some(approved), ..f }
}

/// `fields` with the decision recorded on the field at position `p`.
pub open spec fn fields_after(fields: Seq<ReviewField>, p: int, approved: bool) -> Seq<ReviewField> {
    fields.update(p, decided(fields[p], approved))
}

impl ReviewField {
    /// A copy of this field.
    pub fn duplicate(&self) -> (r: ReviewField)
        ensures
            r == *self,
    {
        ReviewField {
            id: self.id.clone(),
            key: self.key.clone(),
            value: self.value.clone(),
            confidence: self.confidence,
            page: self.page,
            approved: self.approved,
            flagged: self.flagged,
        }
    }
}

proof fn lemma_field_position(fields: Seq<ReviewField>, id: Seq<char>, k: int)
    requires
        0 <= k <= fields.len(),
        k < fields.len() ==> fields[k].id@ == id,
        forall|j: int| 0 <= j < k ==> fields[j].id@ != id,
    ensures
        k < fields.len() ==> field_position(fields, id) == Some(k),
        k == fields.len() ==> field_position(fields, id) is None,
{
    if k < fields.len() {
        let i = choose|i: int| 0 <= i < fields.len() && fields[i].id@ == id && forall|j: int| 0 <= j < i ==> fields[j].id@ != id;
        assert(i == k) by {
            if i < k {
                assert(fields[i].id@ != id);
            }
            if i > k {
                assert(fields[k].id@ != id);
            }
        }
    }
}

/// Record a user's decision on field `field_id` of the document
/// `document_id`: the first field with that id gets `approved`, nothing
/// else changes, and the updated field is returned.  An unknown document or
/// field changes nothing.
pub fn act_on_field(review: &mut ReviewDocument, document_id: &str, field_id: &str, approved: bool) -> (r: Result<ReviewField, AppError>)
    ensures
        !is_under_review(*old(review), document_id@) ==> (r matches Err(AppError::NotFound(m)) && m@
            == document_not_found(document_id@) && *final(review) == *old(review)),
        is_under_review(*old(review), document_id@) ==> match field_position(old(review).fields@, field_id@) {
            None => r matches Err(AppError::NotFound(m)) && m@ == "Field '"@ + field_id@
                + "' not found in document '"@ + document_id@ + "'."@ && *final(review) == *old(review),
            Some(p) => r matches Ok(f) && f == decided(old(review).fields@[p], approved)
                && final(review).fields@ == fields_after(old(review).fields@, p, approved)
                && final(review).id == old(review).id && final(review).name == old(review).name
                && final(review).fund == old(review).fund && final(review).doc_type == old(review).doc_type
                && final(review).confidence == old(review).confidence,
        },
{
    if review.id.as_str().unicode_len() == 0 || !str_eq(review.id.as_str(), document_id) {
        let mut m = String::from_str("Review document '");
        m.append(document_id);
        m.append("' not found.");
        return Err(AppError::NotFound(m));
    }
    let n = review.fields.len();
    let mut i: usize = 0;
    while i < n
        invariant
            0 <= i <= n,
            n == review.fields@.len(),
            *review == *old(review),
            is_under_review(*old(review), document_id@),
            forall|j: int| 0 <= j < i ==> review.fields@[j].id@ != field_id@,
        decreases n - i,
    {
        if str_eq(review.fields[i].id.as_str(), field_id) {
            proof {
                lemma_field_position(review.fields@, field_id@, i as int);
            }
            let mut f = review.fields[i].duplicate();
            f.approved = Some(approved);
            let out = f.duplicate();
            review.fields.set(i, f);
            return Ok(out);
        }
        i = i + 1;
    }
    proof {
        lemma_field_position(review.fields@, field_id@, n as int);
    }
    let mut m = String::from_str("Field '");
    m.append(field_id);
    m.append("' not found in document '");
    m.append(document_id);
    m.append("'.");
    Err(AppError::NotFound(m))
}

/// The last decision on a field is the one that stands: recording `b1` and
/// then `b2` on the same field leaves the fields as recording `b2` alone.
pub proof fn lemma_last_decision_stands(fields: Seq<ReviewField>, p: int, b1: bool, b2: bool)
    requires
        0 <= p < fields.len(),
    ensures
        fields_after(fields_after(fields, p, b1), p, b2) == fields_after(fields, p, b2),
{
    assert(fields_after(fields_after(fields, p, b1), p, b2) =~= fields_after(fields, p, b2));
}

/// A decision changes no field's id, so the decided field, at position `p`,
/// is found again by its id, and carries the decision.
pub proof fn lemma_decision_is_read_back(fields: Seq<ReviewField>, p: int, b: bool)
    requires
        0 <= p < fields.len(),
        field_position(fields, fields[p].id@) == Some(p),
    ensures
        field_position(fields_after(fields, p, b), fields[p].id@) == Some(p),
        fields_after(fields, p, b)[p].approved == Some(b),
{
    let id = fields[p].id@;
    let after = fields_after(fields, p, b);
    assert forall|j: int| 0 <= j < p implies after[j].id@ != id by {
        assert(after[j] == fields[j]);
    }
    lemma_field_position(after, id, p);
}


/// While no review is pending (the seed's empty id), every document id is
/// answered `NotFound`, the empty one included.
pub proof fn lemma_no_review_pending(review: ReviewDocument, document_id: Seq<char>)
    requires
        review.id@.len() == 0,
    ensures
        !is_under_review(review, document_id),
{
}

} // verus!
