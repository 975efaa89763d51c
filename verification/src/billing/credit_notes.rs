//! Credit notes: validated requests become drafts whose amount is the sum of their
//! rounded lines.
use vstd::prelude::*;
use crate::analytics::sales_ledger::{SalesClassification, SalesEventSpec, MetadataEntry, MetadataValue};
use crate::billing::coupons::rows_to_result;
use crate::error::{bad_request, not_found, owned, validation, BillingError};
use crate::models::{CreditNote, CreditNoteStatus};
use crate::money::{all_wf, spec_mul, spec_round_dp, spec_sum, sum_decs, Dec};

verus! {

#[derive(Clone, Debug)]
pub struct CreditNoteItemInput {
    pub description: String,
    pub quantity: Dec,
    pub unit_price: Dec,
}

#[derive(Clone, Debug)]
pub struct CreateCreditNoteRequest {
    pub invoice_id: String,
    pub customer_id: String,
    pub reason: String,
    pub status: Option<CreditNoteStatus>,
    pub items: Vec<CreditNoteItemInput>,
}

#[derive(Clone, Debug)]
pub struct UpdateCreditNoteRequest {
    pub reason: Option<String>,
    pub status: Option<CreditNoteStatus>,
}

#[derive(Clone, Debug)]
pub struct ListCreditNotesFilter {
    pub invoice_id: Option<String>,
    /// Customer role isolation.
    pub role_customer_id: Option<String>,
}

#[derive(Clone, Debug)]
pub struct CreditNoteView {
    pub id: String,
    pub credit_note_number: String,
    pub invoice_id: String,
    pub customer_id: String,
    pub reason: String,
    pub amount: Dec,
    pub status: CreditNoteStatus,
    pub issued_at: Option<i64>,
}

#[derive(Clone, Debug)]
pub struct CreditNoteItemDraft {
    pub description: String,
    pub quantity: Dec,
    pub unit_price: Dec,
    pub amount: Dec,
}

#[derive(Clone, Debug)]
pub struct CreateCreditNoteDraft {
    pub invoice_id: String,
    pub customer_id: String,
    pub reason: String,
    pub amount: Dec,
    pub status: CreditNoteStatus,
    pub issued_at: Option<i64>,
    pub items: Vec<CreditNoteItemDraft>,
}

#[derive(Clone, Debug)]
pub struct UpdateCreditNoteDraft {
    pub reason: Option<String>,
    pub status: Option<CreditNoteStatus>,
    pub issued_at: Option<i64>,
}

/// Storage of credit notes.
pub trait CreditNotesRepository: Sized {
    /// Holds of each answer the store gives to listing the credit notes that `filter`
    /// selects; a store that does not describe its answers admits every answer (so for
    /// each relation below).
    closed spec fn list_credit_notes_answer(&self, filter: ListCreditNotesFilter, answer: Result<Vec<CreditNoteView>, BillingError>) -> bool {
        true
    }

    /// Holds of each answer when asked for the credit note `id`.
    closed spec fn get_credit_note_answer(&self, id: Seq<char>, answer: Result<Option<CreditNote>, BillingError>) -> bool {
        true
    }

    /// Holds of each answer to storing `draft` on the credit note `id`.
    closed spec fn update_credit_note_answer(&self, id: Seq<char>, draft: UpdateCreditNoteDraft, answer: Result<CreditNote, BillingError>) -> bool {
        true
    }

    /// Holds of each answer to deleting the credit note `id` (the rows deleted).
    closed spec fn delete_credit_note_answer(&self, id: Seq<char>, answer: Result<u64, BillingError>) -> bool {
        true
    }

    fn list_credit_notes(&self, filter: &ListCreditNotesFilter) -> (r: Result<Vec<CreditNoteView>, BillingError>)
        ensures
            self.list_credit_notes_answer(*filter, r),
    ;

    fn get_credit_note(&self, id: &str) -> (r: Result<Option<CreditNote>, BillingError>)
        ensures
            self.get_credit_note_answer(id@, r),
    ;

    /// Holds of each answer to storing a new credit note from `draft`.
    closed spec fn create_credit_note_answer(&self, draft: CreateCreditNoteDraft, answer: Result<CreditNote, BillingError>) -> bool {
        true
    }

    /// The store after storing a new credit note from `draft`, with that answer; a store
    /// that does not describe its state keeps the same value (so for each `after_`
    /// function below).
    closed spec fn after_create_credit_note(&self, draft: CreateCreditNoteDraft, answer: Result<CreditNote, BillingError>) -> Self {
        *self
    }

    /// The store after storing `draft` on the credit note `id`.
    closed spec fn after_update_credit_note(&self, id: Seq<char>, draft: UpdateCreditNoteDraft, answer: Result<CreditNote, BillingError>) -> Self {
        *self
    }

    /// The store after deleting the credit note `id`.
    closed spec fn after_delete_credit_note(&self, id: Seq<char>, answer: Result<u64, BillingError>) -> Self {
        *self
    }

    fn create_credit_note(&mut self, draft: &CreateCreditNoteDraft) -> (r: Result<CreditNote, BillingError>)
        ensures
            old(self).create_credit_note_answer(*draft, r),
            *final(self) == old(self).after_create_credit_note(*draft, r),
    ;

    fn update_credit_note(&mut self, id: &str, draft: &UpdateCreditNoteDraft) -> (r: Result<
        CreditNote,
        BillingError,
    >)
        ensures
            old(self).update_credit_note_answer(id@, *draft, r),
            *final(self) == old(self).after_update_credit_note(id@, *draft, r),
    ;

    fn delete_credit_note(&mut self, id: &str) -> (r: Result<u64, BillingError>)
        ensures
            old(self).delete_credit_note_answer(id@, r),
            *final(self) == old(self).after_delete_credit_note(id@, r),
    ;
}

/// The amount of a line: quantity times unit price, rounded to cents.
pub open spec fn spec_line_amount(q: Dec, p: Dec) -> Option<Dec> {
    match spec_mul(q, p) {
        Some(x) => Some(spec_round_dp(x, 2)),
        None => None,
    }
}

/// The first broken rule of a credit note request: invoice, customer and reason must be
/// given, there must be a line, and each line must be described.
pub open spec fn credit_note_violation(req: CreateCreditNoteRequest) -> Option<(bool, Seq<char>)> {
    if req.invoice_id@.len() == 0 {
        Some((true, "invoice_id is required"@))
    } else if req.customer_id@.len() == 0 {
        Some((true, "customer_id is required"@))
    } else if req.reason@.len() == 0 {
        Some((true, "reason is required"@))
    } else if req.items@.len() == 0 {
        Some((false, "at least one credit note item is required"@))
    } else if exists|i: int| 0 <= i < req.items@.len() && (#[trigger] req.items@[i]).description@.len() == 0 {
        Some((true, "description is required"@))
    } else {
        None
    }
}

/// The error a violation stands for: a validation error for a field rule (`true`), a bad
/// request otherwise.
pub open spec fn violation_error(e: BillingError, v: (bool, Seq<char>)) -> bool {
    if v.0 {
        e matches BillingError::Validation(m) && m@ == v.1
    } else {
        e matches BillingError::BadRequest(m) && m@ == v.1
    }
}

pub open spec fn items_wf(items: Seq<CreditNoteItemInput>) -> bool {
    forall|i: int| 0 <= i < items.len() ==> (#[trigger] items[i]).quantity.wf() && items[i].unit_price.wf()
}

fn is_empty_text(s: &String) -> (r: bool)
    ensures
        r == (s@.len() == 0),
{
    s.as_str().unicode_len() == 0
}

pub fn validate_credit_note(req: &CreateCreditNoteRequest) -> (r: Result<(), BillingError>)
    ensures
        match credit_note_violation(*req) {
            Some(v) => r matches Err(e) && violation_error(e, v),
            None => r is Ok,
        },
{
    if is_empty_text(&req.invoice_id) {
        return Err(validation("invoice_id is required"));
    }
    if is_empty_text(&req.customer_id) {
        return Err(validation("customer_id is required"));
    }
    if is_empty_text(&req.reason) {
        return Err(validation("reason is required"));
    }
    if req.items.len() == 0 {
        return Err(bad_request("at least one credit note item is required"));
    }
    let mut i: usize = 0;
    while i < req.items.len()
        invariant
            i <= req.items.len(),
            req.invoice_id@.len() != 0,
            req.customer_id@.len() != 0,
            req.reason@.len() != 0,
            req.items@.len() != 0,
            forall|j: int| 0 <= j < i ==> (#[trigger] req.items@[j]).description@.len() != 0,
        decreases req.items.len() - i,
    {
        if is_empty_text(&req.items[i].description) {
            proof {
                assert(req.items@[i as int].description@.len() == 0);
                assert(exists|k: int| 0 <= k < req.items@.len() && (#[trigger] req.items@[k]).description@.len() == 0);
            }
            return Err(validation("description is required"));
        }
        i = i + 1;
    }
    Ok(())
}

/// The lines of a credit note: each input with its rounded amount.
pub open spec fn line_matches(d: CreditNoteItemDraft, inp: CreditNoteItemInput) -> bool {
    &&& d.description == inp.description
    &&& d.quantity == inp.quantity
    &&& d.unit_price == inp.unit_price
    &&& spec_line_amount(inp.quantity, inp.unit_price) == Some(d.amount)
}

pub open spec fn draft_amounts(items: Seq<CreditNoteItemDraft>) -> Seq<Dec> {
    items.map_values(|d: CreditNoteItemDraft| d.amount)
}

/// The rounded amounts of the requested lines (meaningful where each exists).
pub open spec fn input_amounts(items: Seq<CreditNoteItemInput>) -> Seq<Dec> {
    items.map_values(|it: CreditNoteItemInput| spec_line_amount(it.quantity, it.unit_price).unwrap())
}

/// Whether every requested line and their sum stay in the decimal domain.
pub open spec fn credit_note_priced(req: CreateCreditNoteRequest) -> bool {
    &&& forall|i: int| 0 <= i < req.items@.len() ==> spec_line_amount(
        (#[trigger] req.items@[i]).quantity,
        req.items@[i].unit_price,
    ) is Some
    &&& spec_sum(input_amounts(req.items@)) is Some
}

/// Builds a credit note draft from a valid request: the lines with rounded amounts,
/// their sum as the note's amount, `Draft` unless a status is given, and the issue time
/// set only for an issued note. `Err(Internal)` where an amount leaves the decimal domain.
/// What `build_credit_note_draft` gives for a request at `now`.
pub open spec fn credit_note_draft_outcome(req: CreateCreditNoteRequest, now: i64, r: Result<CreateCreditNoteDraft, BillingError>) -> bool {
    &&& credit_note_violation(req) matches Some(v) ==> (r matches Err(e) && violation_error(e, v))
    &&& r matches Err(e) ==> credit_note_violation(req) is Some || e is Internal
    &&& credit_note_violation(req) is None ==> (r is Ok <==> credit_note_priced(req))
    &&& r matches Ok(d) ==> {
        &&& credit_note_violation(req) is None
        &&& d.invoice_id == req.invoice_id
        &&& d.customer_id == req.customer_id
        &&& d.reason == req.reason
        &&& d.items@.len() == req.items@.len()
        &&& forall|i: int| 0 <= i < d.items@.len() ==> line_matches(#[trigger] d.items@[i], req.items@[i])
        &&& spec_sum(draft_amounts(d.items@)) == Some(d.amount)
        &&& d.status == (match req.status {
            Some(s) => s,
            None => CreditNoteStatus::Draft,
        })
        &&& d.issued_at == (if d.status == CreditNoteStatus::Issued {
            Some(now)
        } else {
            None
        })
    }
}

pub fn build_credit_note_draft(req: CreateCreditNoteRequest, now: i64) -> (r: Result<
    CreateCreditNoteDraft,
    BillingError,
>)
    requires
        items_wf(req.items@),
    ensures
        credit_note_violation(req) matches Some(v) ==> (r matches Err(e) && violation_error(e, v)),
        r matches Err(e) ==> credit_note_violation(req) is Some || e is Internal,
        credit_note_violation(req) is None ==> (r is Ok <==> credit_note_priced(req)),
        r matches Ok(d) ==> {
            &&& credit_note_violation(req) is None
            &&& d.invoice_id == req.invoice_id
            &&& d.customer_id == req.customer_id
            &&& d.reason == req.reason
            &&& d.items@.len() == req.items@.len()
            &&& forall|i: int| 0 <= i < d.items@.len() ==> line_matches(
                #[trigger] d.items@[i],
                req.items@[i],
            )
            &&& spec_sum(draft_amounts(d.items@)) == Some(d.amount)
            &&& d.status == (match req.status {
                Some(s) => s,
                None => CreditNoteStatus::Draft,
            })
            &&& d.issued_at == (if d.status == CreditNoteStatus::Issued {
                Some(now)
            } else {
                None
            })
        },
{
    match validate_credit_note(&req) {
        Ok(()) => {},
        Err(e) => {
            return Err(e);
        },
    }
    let mut items: Vec<CreditNoteItemDraft> = Vec::new();
    let mut amounts: Vec<Dec> = Vec::new();
    let mut i: usize = 0;
    while i < req.items.len()
        invariant
            items_wf(req.items@),
            credit_note_violation(req) is None,
            i <= req.items.len(),
            items@.len() == i,
            amounts@ == draft_amounts(items@),
            forall|j: int| 0 <= j < i ==> line_matches(#[trigger] items@[j], req.items@[j]),
            all_wf(amounts@),
        decreases req.items.len() - i,
    {
        let item = &req.items[i];
        proof {
            assert(item.quantity.wf() && item.unit_price.wf());
        }
        let amount = match item.quantity.checked_mul(&item.unit_price) {
            Some(x) => x.round_dp(2),
            None => {
                proof {
                    assert(spec_line_amount(req.items@[i as int].quantity, req.items@[i as int].unit_price) is None);
                    assert(!credit_note_priced(req));
                }
                return Err(crate::error::overflow());
            },
        };
        let ghost before = items@;
        items.push(
            CreditNoteItemDraft {
                description: item.description.clone(),
                quantity: item.quantity,
                unit_price: item.unit_price,
                amount,
            },
        );
        amounts.push(amount);
        proof {
            assert(draft_amounts(items@) =~= draft_amounts(before).push(amount));
            assert forall|j: int| 0 <= j < amounts@.len() implies #[trigger] amounts@[j].wf() by {
                if j < i {
                    assert(amounts@[j] == old_amounts_at(amounts@, j));
                }
            }
        }
        i = i + 1;
    }
    proof {
        assert(draft_amounts(items@) =~= input_amounts(req.items@)) by {
            assert forall|j: int| 0 <= j < items@.len() implies #[trigger] draft_amounts(items@)[j]
                == input_amounts(req.items@)[j] by {
                assert(line_matches(items@[j], req.items@[j]));
            }
        }
        assert forall|j: int| 0 <= j < req.items@.len() implies spec_line_amount(
            (#[trigger] req.items@[j]).quantity,
            req.items@[j].unit_price,
        ) is Some by {
            assert(line_matches(items@[j], req.items@[j]));
        }
    }
    let amount = match sum_decs(&amounts) {
        Some(a) => a,
        None => {
            return Err(crate::error::overflow());
        },
    };
    let status = match req.status {
        Some(s) => s,
        None => CreditNoteStatus::Draft,
    };
    let issued_at = if status == CreditNoteStatus::Issued {
        Some(now)
    } else {
        None
    };
    Ok(
        CreateCreditNoteDraft {
            invoice_id: req.invoice_id,
            customer_id: req.customer_id,
            reason: req.reason,
            amount,
            status,
            issued_at,
            items,
        },
    )
}

spec fn old_amounts_at(s: Seq<Dec>, j: int) -> Dec {
    s[j]
}

/// The changes an update stores: the given reason and status, and the issue time when
/// the note becomes issued.
/// The changes an update stores: the reason and status the request gives, and the issue
/// time when the credit note becomes issued.
pub open spec fn spec_update_draft(req: UpdateCreditNoteRequest, now: i64) -> UpdateCreditNoteDraft {
    UpdateCreditNoteDraft {
        reason: req.reason,
        status: req.status,
        issued_at: if req.status == Some(CreditNoteStatus::Issued) {
            Some(now)
        } else {
            None
        },
    }
}

pub fn build_update_draft(req: UpdateCreditNoteRequest, now: i64) -> (r: UpdateCreditNoteDraft)
    ensures
        r == spec_update_draft(req, now),
        r.reason == req.reason,
        r.status == req.status,
        r.issued_at == (if req.status == Some(CreditNoteStatus::Issued) {
            Some(now)
        } else {
            None
        }),
{
    let issued_at = if req.status == Some(CreditNoteStatus::Issued) {
        Some(now)
    } else {
        None
    };
    UpdateCreditNoteDraft { reason: req.reason, status: req.status, issued_at }
}

pub fn list_credit_notes<R: CreditNotesRepository>(repo: &R, filter: &ListCreditNotesFilter) -> (r:
    Result<Vec<CreditNoteView>, BillingError>)
    ensures
        repo.list_credit_notes_answer(*filter, r),
{
    repo.list_credit_notes(filter)
}

/// A stored credit note, or `NotFound` for its id.
pub fn found_credit_note(id: &str, stored: Option<CreditNote>) -> (r: Result<CreditNote, BillingError>)
    ensures
        match stored {
            Some(c) => r == Ok::<CreditNote, BillingError>(c),
            None => r matches Err(BillingError::NotFound { entity, id: i }) && entity@
                == "credit_note"@ && i@ == id@,
        },
{
    match stored {
        Some(c) => Ok(c),
        None => Err(not_found("credit_note", id)),
    }
}

pub fn get_credit_note<R: CreditNotesRepository>(repo: &R, id: &str) -> (r: Result<CreditNote, BillingError>)
    ensures
        exists|answer: Result<Option<CreditNote>, BillingError>|
            #[trigger] repo.get_credit_note_answer(id@, answer) && match answer {
                Ok(Some(c)) => r == Ok::<CreditNote, BillingError>(c),
                Ok(None) => r matches Err(BillingError::NotFound { entity, id: i }) && entity@
                    == "credit_note"@ && i@ == id@,
                Err(e) => r == Err::<CreditNote, BillingError>(e),
            },
{
    let stored = repo.get_credit_note(id)?;
    found_credit_note(id, stored)
}

/// Creates a credit note from a request checked and priced by `build_credit_note_draft`.
pub fn create_credit_note<R: CreditNotesRepository>(repo: &mut R, req: CreateCreditNoteRequest, now: i64) -> (r:
    Result<CreditNote, BillingError>)
    requires
        items_wf(req.items@),
    ensures
        credit_note_violation(req) matches Some(v) ==> (r matches Err(e) && violation_error(e, v)),
        exists|d: Result<CreateCreditNoteDraft, BillingError>|
            #[trigger] credit_note_draft_outcome(req, now, d) && match d {
                Err(e) => r == Err::<CreditNote, BillingError>(e) && *final(repo) == *old(repo),
                Ok(draft) => old(repo).create_credit_note_answer(draft, r) && *final(repo) == old(
                    repo,
                ).after_create_credit_note(draft, r),
            },
{
    let ghost req0 = req;
    let draft = build_credit_note_draft(req, now);
    proof {
        assert(credit_note_draft_outcome(req0, now, draft));
    }
    match draft {
        Ok(d) => repo.create_credit_note(&d),
        Err(e) => Err(e),
    }
}

pub fn update_credit_note<R: CreditNotesRepository>(
    repo: &mut R,
    id: &str,
    req: UpdateCreditNoteRequest,
    now: i64,
) -> (r: Result<CreditNote, BillingError>)
    ensures
        exists|answer: Result<Option<CreditNote>, BillingError>|
            #[trigger] old(repo).get_credit_note_answer(id@, answer) && match answer {
                Ok(Some(_)) => old(repo).update_credit_note_answer(id@, spec_update_draft(req, now), r)
                    && *final(repo) == old(repo).after_update_credit_note(id@, spec_update_draft(req, now), r),
                Ok(None) => *final(repo) == *old(repo) && (r matches Err(BillingError::NotFound {
                    entity,
                    id: i,
                }) && entity@ == "credit_note"@ && i@ == id@),
                Err(e) => r == Err::<CreditNote, BillingError>(e) && *final(repo) == *old(repo),
            },
{
    let _existing = get_credit_note(&*repo, id)?;
    let draft = build_update_draft(req, now);
    repo.update_credit_note(id, &draft)
}

pub fn delete_credit_note<R: CreditNotesRepository>(repo: &mut R, id: &str) -> (r: Result<(), BillingError>)
    ensures
        exists|answer: Result<u64, BillingError>|
            #[trigger] old(repo).delete_credit_note_answer(id@, answer) && *final(repo) == old(
                repo,
            ).after_delete_credit_note(id@, answer) && match answer {
                Ok(0) => r matches Err(BillingError::NotFound { entity, id: i }) && entity@
                    == "credit_note"@ && i@ == id@,
                Ok(_) => r is Ok,
                Err(e) => r == Err::<(), BillingError>(e),
            },
{
    let affected = repo.delete_credit_note(id)?;
    rows_to_result(affected, "credit_note", id)
}

/// The ledger event of a new credit note: an adjustment of its amount, untaxed, in USD.
pub fn credit_note_sales_event(note: &CreditNote) -> (r: SalesEventSpec)
    ensures
        r.event_type@ == "credit_note.created"@,
        r.classification == SalesClassification::Adjustments,
        r.amount_subtotal == note.amount,
        r.amount_total == note.amount,
        r.amount_tax.val() == 0,
        r.currency@ == "USD"@,
        r.customer_id == Some(note.customer_id),
        r.subscription_id is None,
        r.invoice_id == Some(note.invoice_id),
        r.payment_id is None,
        r.source_table@ == "credit_notes"@,
        r.source_id == note.id,
        r.metadata@.len() == 2,
        r.metadata@[0].key@ == "status"@ && r.metadata@[0].value == MetadataValue::CreditNoteStatus(note.status),
        r.metadata@[1].key@ == "reason"@ && r.metadata@[1].value == MetadataValue::Text(note.reason),
{
    let mut metadata: Vec<MetadataEntry> = Vec::new();
    metadata.push(MetadataEntry { key: "status", value: MetadataValue::CreditNoteStatus(note.status) });
    metadata.push(MetadataEntry { key: "reason", value: MetadataValue::Text(note.reason.clone()) });
    SalesEventSpec {
        event_type: "credit_note.created",
        classification: SalesClassification::Adjustments,
        amount_subtotal: note.amount,
        amount_tax: Dec::zero(),
        amount_total: note.amount,
        currency: owned("USD"),
        customer_id: Some(note.customer_id.clone()),
        subscription_id: None,
        invoice_id: Some(note.invoice_id.clone()),
        payment_id: None,
        source_table: "credit_notes",
        source_id: note.id.clone(),
        metadata,
    }
}

} // verus!
