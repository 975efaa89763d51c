use std::cell::RefCell;

use rustbill_core::billing::credit_notes::{
    build_credit_note_draft, credit_note_sales_event, create_credit_note, delete_credit_note,
    update_credit_note, CreateCreditNoteDraft, CreateCreditNoteRequest, CreditNoteItemInput,
    CreditNoteView, CreditNotesRepository, ListCreditNotesFilter, UpdateCreditNoteDraft,
    UpdateCreditNoteRequest,
};
use rustbill_core::error::BillingError;
use rustbill_core::models::{CreditNote, CreditNoteStatus};
use rustbill_core::money::Dec;

fn sample_note() -> CreditNote {
    CreditNote {
        id: "cn_1".to_string(),
        credit_note_number: "CN-00000001".to_string(),
        invoice_id: "inv_1".to_string(),
        customer_id: "cus_1".to_string(),
        reason: "Adjustment".to_string(),
        amount: Dec::from_int(25),
        status: CreditNoteStatus::Draft,
        issued_at: None,
    }
}

#[derive(Default)]
struct StubRepo {
    note: Option<CreditNote>,
    deleted_rows: u64,
    created: RefCell<Option<CreateCreditNoteDraft>>,
    updated: RefCell<Option<UpdateCreditNoteDraft>>,
}

impl CreditNotesRepository for StubRepo {
    fn list_credit_notes(&self, _f: &ListCreditNotesFilter) -> Result<Vec<CreditNoteView>, BillingError> {
        Ok(Vec::new())
    }
    fn get_credit_note(&self, _id: &str) -> Result<Option<CreditNote>, BillingError> {
        Ok(self.note.clone())
    }
    fn create_credit_note(&mut self, draft: &CreateCreditNoteDraft) -> Result<CreditNote, BillingError> {
        *self.created.borrow_mut() = Some(draft.clone());
        Ok(sample_note())
    }
    fn update_credit_note(&mut self, _id: &str, draft: &UpdateCreditNoteDraft) -> Result<CreditNote, BillingError> {
        *self.updated.borrow_mut() = Some(draft.clone());
        Ok(sample_note())
    }
    fn delete_credit_note(&mut self, _id: &str) -> Result<u64, BillingError> {
        Ok(self.deleted_rows)
    }
}

fn request(items: Vec<CreditNoteItemInput>) -> CreateCreditNoteRequest {
    CreateCreditNoteRequest {
        invoice_id: "inv_1".to_string(),
        customer_id: "cus_1".to_string(),
        reason: "Adjustment".to_string(),
        status: None,
        items,
    }
}

fn item(desc: &str, q: Dec, p: Dec) -> CreditNoteItemInput {
    CreditNoteItemInput { description: desc.to_string(), quantity: q, unit_price: p }
}

#[test]
fn create_credit_note_builds_draft_and_forwards() {
    let mut repo = StubRepo::default();
    let note = create_credit_note(&mut repo, request(vec![item("Refund", Dec::from_int(1), Dec::from_int(25))]), 100).expect("create_credit_note");
    assert_eq!(note.id, "cn_1");
    let draft = repo.created.borrow();
    let draft = draft.as_ref().expect("draft");
    assert!(draft.amount.eq_value(&Dec::from_int(25)));
    assert_eq!(draft.status, CreditNoteStatus::Draft);
    assert_eq!(draft.issued_at, None);
}

#[test]
fn create_credit_note_rejects_empty_items() {
    let mut repo = StubRepo::default();
    let err = create_credit_note(&mut repo, request(Vec::new()), 100).expect_err("should fail");
    assert!(matches!(err, BillingError::BadRequest(m) if m.contains("at least one credit note item")));
}

#[test]
fn update_credit_note_returns_not_found_when_missing() {
    let mut repo = StubRepo::default();
    let err = update_credit_note(&mut repo, "cn_1", UpdateCreditNoteRequest { reason: Some("updated".to_string()), status: None }, 100).expect_err("should fail");
    assert!(matches!(err, BillingError::NotFound { entity, .. } if entity == "credit_note"));
}

#[test]
fn delete_credit_note_maps_zero_rows_to_not_found() {
    let mut repo = StubRepo::default();
    let err = delete_credit_note(&mut repo, "cn_1").expect_err("should fail");
    assert!(matches!(err, BillingError::NotFound { entity, id } if entity == "credit_note" && id == "cn_1"));
}

#[test]
fn credit_note_lines_are_rounded_and_summed() {
    let mut req = request(vec![
        item("a", Dec::new(3, 0), Dec::new(3333, 3)),
        item("b", Dec::from_int(2), Dec::new(1005, 2)),
    ]);
    req.status = Some(CreditNoteStatus::Issued);
    let d = build_credit_note_draft(req, 77).expect("draft");
    assert_eq!(d.items[0].amount.to_text(), "10.00");
    assert_eq!(d.items[1].amount.to_text(), "20.10");
    assert_eq!(d.amount.to_text(), "30.10");
    assert_eq!(d.issued_at, Some(77));
}

#[test]
fn credit_note_field_rules() {
    let mut req = request(vec![item("a", Dec::from_int(1), Dec::from_int(1))]);
    req.reason = String::new();
    assert!(matches!(build_credit_note_draft(req, 0).expect_err("x"), BillingError::Validation(m) if m == "reason is required"));
    let req = request(vec![item("", Dec::from_int(1), Dec::from_int(1))]);
    assert!(matches!(build_credit_note_draft(req, 0).expect_err("x"), BillingError::Validation(m) if m == "description is required"));
}

#[test]
fn issued_update_sets_issue_time() {
    let mut repo = StubRepo { note: Some(sample_note()), ..StubRepo::default() };
    update_credit_note(&mut repo, "cn_1", UpdateCreditNoteRequest { reason: None, status: Some(CreditNoteStatus::Issued) }, 55).expect("ok");
    assert_eq!(repo.updated.borrow().as_ref().expect("d").issued_at, Some(55));
    let ev = credit_note_sales_event(&sample_note());
    assert_eq!(ev.event_type, "credit_note.created");
    assert_eq!(ev.source_id, "cn_1");
    assert_eq!(ev.metadata.len(), 2);
    assert_eq!(ev.metadata[0].key, "status");
    assert_eq!(ev.metadata[1].key, "reason");
}
