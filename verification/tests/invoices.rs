use rustbill_core::billing::invoices::document_number;
use rustbill_core::billing::invoices::{notice_due_date, update_notices};
use std::cell::RefCell;

use rustbill_core::billing::invoices::{
    add_invoice_item, build_invoice_draft, create_invoice, delete_invoice, discount_amount,
    format_cycle, invoice_totals, item_amount, recomputed_totals, tax_at_rate, update_invoice,
    validate_coupon, AddInvoiceItemRequest, CreateInvoiceDraft, CreateInvoiceRequest,
    InvoiceItemDraft, InvoiceRepository, InvoiceView, ListInvoicesFilter, UpdateInvoiceDraft,
    UpdateInvoiceRequest,
};
use rustbill_core::error::BillingError;
use rustbill_core::models::{
    BillingCycle, Coupon, DiscountType, Invoice, InvoiceItem, InvoiceStatus, MetadataNumber,
    PricingModel, PricingPlan, Subscription, SubscriptionStatus,
};
use rustbill_core::money::Dec;

fn sample_invoice() -> Invoice {
    Invoice {
        id: "inv_1".to_string(),
        invoice_number: "INV-00000001".to_string(),
        customer_id: "cus_1".to_string(),
        subscription_id: None,
        status: InvoiceStatus::Draft,
        issued_at: None,
        due_at: None,
        paid_at: None,
        subtotal: Dec::zero(),
        tax: Dec::zero(),
        total: Dec::zero(),
        currency: "USD".to_string(),
        notes: None,
        version: 1,
        credits_applied: Dec::zero(),
        amount_due: Dec::zero(),
        auto_charge_attempts: 0,
    }
}

fn sample_subscription() -> Subscription {
    Subscription {
        id: "sub_1".to_string(),
        customer_id: "cus_1".to_string(),
        plan_id: "plan_1".to_string(),
        status: SubscriptionStatus::Active,
        current_period_start: 1_767_225_600,
        current_period_end: 1_769_904_000,
        canceled_at: None,
        cancel_at_period_end: false,
        trial_end: None,
        quantity: 5,
        managed_by: None,
        version: 1,
        meta_pre_renewal_days: MetadataNumber::Absent,
        meta_pre_renewal_days_snake: MetadataNumber::Absent,
    }
}

fn sample_plan() -> PricingPlan {
    PricingPlan {
        id: "plan_1".to_string(),
        name: "Starter".to_string(),
        pricing_model: PricingModel::PerUnit,
        billing_cycle: BillingCycle::Monthly,
        base_price: Dec::from_int(10),
        unit_price: Some(Dec::from_int(10)),
        usage_metric_name: None,
        trial_days: 0,
        active: true,
    }
}

fn sample_coupon() -> Coupon {
    Coupon {
        id: "coupon_1".to_string(),
        code: "SAVE10".to_string(),
        name: "Save 10".to_string(),
        discount_type: DiscountType::Percentage,
        discount_value: Dec::from_int(10),
        currency: "USD".to_string(),
        max_redemptions: Some(5),
        times_redeemed: 1,
        valid_from: 0,
        valid_until: None,
        active: true,
    }
}

fn sample_item() -> InvoiceItem {
    InvoiceItem {
        id: "item_1".to_string(),
        invoice_id: "inv_1".to_string(),
        description: "Design work".to_string(),
        quantity: Dec::from_int(1),
        unit_price: Dec::from_int(100),
        amount: Dec::from_int(100),
        period_start: None,
        period_end: None,
    }
}

#[derive(Default)]
struct StubRepo {
    next_invoice_number: String,
    subscription: Option<Subscription>,
    plan: Option<PricingPlan>,
    coupon: Option<Coupon>,
    invoice: Option<Invoice>,
    created_draft: RefCell<Option<CreateInvoiceDraft>>,
    updated_draft: RefCell<Option<UpdateInvoiceDraft>>,
    added_item: RefCell<Option<AddInvoiceItemRequest>>,
    conflict_on_update: bool,
    deleted_rows: u64,
}

impl InvoiceRepository for StubRepo {
    fn list_invoices(&self, _f: &ListInvoicesFilter) -> Result<Vec<InvoiceView>, BillingError> {
        Ok(Vec::new())
    }
    fn get_invoice(&self, _id: &str) -> Result<Option<Invoice>, BillingError> {
        Ok(self.invoice.clone())
    }
    fn next_invoice_number(&self) -> Result<String, BillingError> {
        Ok(self.next_invoice_number.clone())
    }
    fn find_subscription(&self, _id: &str) -> Result<Option<Subscription>, BillingError> {
        Ok(self.subscription.clone())
    }
    fn find_plan(&self, _id: &str) -> Result<Option<PricingPlan>, BillingError> {
        Ok(self.plan.clone())
    }
    fn find_coupon(&self, _code: &str) -> Result<Option<Coupon>, BillingError> {
        Ok(self.coupon.clone())
    }
    fn plan_amount(&self, plan: &PricingPlan, quantity: i32) -> Result<Dec, BillingError> {
        let unit = plan.unit_price.unwrap_or(plan.base_price);
        Ok(unit.checked_mul(&Dec::from_int(quantity as i64)).expect("amount"))
    }
    fn create_invoice(&mut self, draft: &CreateInvoiceDraft) -> Result<Invoice, BillingError> {
        *self.created_draft.borrow_mut() = Some(draft.clone());
        Ok(self.invoice.clone().expect("invoice"))
    }
    fn update_invoice(&mut self, _id: &str, draft: &UpdateInvoiceDraft) -> Result<Option<Invoice>, BillingError> {
        *self.updated_draft.borrow_mut() = Some(draft.clone());
        if self.conflict_on_update {
            return Ok(None);
        }
        Ok(self.invoice.clone())
    }
    fn delete_invoice(&mut self, _id: &str) -> Result<u64, BillingError> {
        Ok(self.deleted_rows)
    }
    fn add_invoice_item(&mut self, _invoice_id: &str, req: &AddInvoiceItemRequest) -> Result<InvoiceItem, BillingError> {
        *self.added_item.borrow_mut() = Some(req.clone());
        Ok(sample_item())
    }
    fn list_invoice_items(&self, _invoice_id: &str) -> Result<Vec<InvoiceItem>, BillingError> {
        Ok(vec![sample_item()])
    }
}

fn request(coupon: Option<&str>) -> CreateInvoiceRequest {
    CreateInvoiceRequest {
        customer_id: "cus_1".to_string(),
        subscription_id: Some("sub_1".to_string()),
        due_at: None,
        currency: None,
        notes: Some("hello".to_string()),
        coupon_code: coupon.map(str::to_string),
        tax_rate: Some(Dec::from_int(5)),
    }
}

#[test]
fn create_invoice_builds_subscription_and_discount_items() {
    let mut repo = StubRepo {
        next_invoice_number: "INV-00000001".to_string(),
        subscription: Some(sample_subscription()),
        plan: Some(sample_plan()),
        coupon: Some(sample_coupon()),
        invoice: Some(sample_invoice()),
        ..StubRepo::default()
    };

    let result = create_invoice(&mut repo, request(Some("SAVE10"))).expect("create_invoice");

    let draft = repo.created_draft.borrow();
    assert_eq!(result.invoice_number, "INV-00000001");
    let draft = draft.as_ref().expect("draft");
    assert_eq!(draft.currency, "USD");
    assert_eq!(draft.line_items.len(), 2);
    assert!(draft.subtotal.eq_value(&Dec::from_int(45)));
    assert!(draft.tax.eq_value(&Dec::new(225, 2)));
    assert!(draft.total.eq_value(&Dec::new(4725, 2)));
    assert_eq!(draft.coupon_id_to_increment.as_deref(), Some("coupon_1"));
    assert_eq!(draft.line_items[0].description, "Starter (Monthly)");
    assert_eq!(draft.line_items[1].description, "Discount (SAVE10)");
    assert_eq!(draft.notes.as_deref(), Some("hello"));
}

#[test]
fn update_invoice_sets_issued_at_for_issued_status() {
    let mut repo = StubRepo { invoice: Some(sample_invoice()), ..StubRepo::default() };
    let _ = update_invoice(
        &mut repo,
        "inv_1",
        UpdateInvoiceRequest {
            status: Some(InvoiceStatus::Issued),
            due_at: None,
            notes: None,
            stripe_invoice_id: None,
            xendit_invoice_id: None,
            lemonsqueezy_order_id: None,
            version: 1,
        },
        1_767_225_600,
    )
    .expect("update_invoice");
    assert!(repo.updated_draft.borrow().as_ref().and_then(|d| d.issued_at).is_some());
}

#[test]
fn add_invoice_item_validates_and_forwards() {
    let mut repo = StubRepo { invoice: Some(sample_invoice()), ..StubRepo::default() };
    let item = add_invoice_item(
        &mut repo,
        "inv_1",
        AddInvoiceItemRequest {
            description: "Design work".to_string(),
            quantity: Dec::from_int(2),
            unit_price: Dec::from_int(25),
            period_start: None,
            period_end: None,
        },
    )
    .expect("add_invoice_item");
    assert_eq!(item.id, "item_1");
    assert_eq!(repo.added_item.borrow().as_ref().map(|r| r.description.clone()), Some("Design work".to_string()));
}

#[test]
fn add_invoice_item_requires_description() {
    let mut repo = StubRepo::default();
    let err = add_invoice_item(
        &mut repo,
        "inv_1",
        AddInvoiceItemRequest { description: String::new(), quantity: Dec::from_int(1), unit_price: Dec::from_int(1), period_start: None, period_end: None },
    )
    .expect_err("invalid");
    assert!(matches!(err, BillingError::Validation(m) if m == "description is required"));
    assert!(repo.added_item.borrow().is_none());
}

#[test]
fn unknown_coupon_is_a_bad_request() {
    let mut repo = StubRepo {
        next_invoice_number: "INV-2".to_string(),
        subscription: Some(sample_subscription()),
        plan: Some(sample_plan()),
        invoice: Some(sample_invoice()),
        ..StubRepo::default()
    };
    let err = create_invoice(&mut repo, request(Some("NOPE"))).expect_err("bad");
    assert!(matches!(err, BillingError::BadRequest(m) if m == "coupon 'NOPE' not found or inactive"));
}

#[test]
fn exhausted_coupon_is_refused() {
    let mut c = sample_coupon();
    c.times_redeemed = 5;
    let err = validate_coupon(&c).expect_err("exhausted");
    assert!(matches!(err, BillingError::BadRequest(m) if m == "coupon has reached max redemptions"));
    c.max_redemptions = None;
    assert!(validate_coupon(&c).is_ok());
}

#[test]
fn missing_customer_is_invalid_and_missing_plan_not_found() {
    let mut repo = StubRepo { subscription: Some(sample_subscription()), ..StubRepo::default() };
    let mut req = request(None);
    req.customer_id = String::new();
    assert!(matches!(create_invoice(&mut repo, req).expect_err("invalid"), BillingError::Validation(_)));
    let err = create_invoice(&mut repo, request(None)).expect_err("no plan");
    assert!(matches!(err, BillingError::NotFound { entity, id } if entity == "plan" && id == "plan_1"));
}

#[test]
fn version_mismatch_is_a_conflict() {
    let mut repo = StubRepo { conflict_on_update: true, ..StubRepo::default() };
    let req = UpdateInvoiceRequest { status: None, due_at: None, notes: None, stripe_invoice_id: None, xendit_invoice_id: None, lemonsqueezy_order_id: None, version: 3 };
    let err = update_invoice(&mut repo, "inv_9", req, 0).expect_err("conflict");
    assert!(matches!(err, BillingError::Conflict(m) if m == "invoice inv_9 was modified concurrently (version mismatch)"));
    assert!(repo.updated_draft.borrow().as_ref().expect("draft").issued_at.is_none());
}

#[test]
fn delete_of_nothing_is_not_found() {
    let mut repo = StubRepo::default();
    assert!(matches!(delete_invoice(&mut repo, "inv_1").expect_err("nf"), BillingError::NotFound { entity, .. } if entity == "invoice"));
    let mut repo = StubRepo { deleted_rows: 1, ..StubRepo::default() };
    assert!(delete_invoice(&mut repo, "inv_1").is_ok());
}

#[test]
fn discounts_percentage_and_capped_fixed() {
    let d = discount_amount(DiscountType::Percentage, &Dec::from_int(15), &Dec::new(3333, 2)).expect("d");
    assert_eq!(d.to_text(), "5.00");
    let d = discount_amount(DiscountType::FixedAmount, &Dec::from_int(80), &Dec::from_int(50)).expect("d");
    assert_eq!(d.to_text(), "50");
}

#[test]
fn tax_rounds_half_to_even() {
    assert_eq!(tax_at_rate(&Dec::new(1050, 2), &Dec::from_int(5)).expect("t").to_text(), "0.52");
    assert_eq!(tax_at_rate(&Dec::new(1070, 2), &Dec::from_int(5)).expect("t").to_text(), "0.54");
}

#[test]
fn totals_of_lines() {
    let line = |a: i64| InvoiceItemDraft { description: "x".to_string(), quantity: Dec::from_int(1), unit_price: Dec::from_int(a), amount: Dec::from_int(a), period_start: None, period_end: None };
    let (s, t, total) = invoice_totals(&vec![line(30), line(70)], &Dec::from_int(10)).expect("totals");
    assert_eq!(s.to_text(), "100");
    assert!(t.eq_value(&Dec::from_int(10)));
    assert!(total.eq_value(&Dec::from_int(110)));
}

#[test]
fn recomputed_tax_keeps_effective_rate() {
    let (s, t, total) = recomputed_totals(&Dec::from_int(200), &Dec::from_int(100), &Dec::from_int(8)).expect("r");
    assert_eq!(s.to_text(), "200");
    assert!(t.eq_value(&Dec::from_int(16)));
    assert!(total.eq_value(&Dec::from_int(216)));
    let (_, t, _) = recomputed_totals(&Dec::from_int(200), &Dec::zero(), &Dec::from_int(8)).expect("r");
    assert!(t.is_zero());
}

#[test]
fn item_amount_rounds_to_cents() {
    assert_eq!(item_amount(&Dec::new(15, 1), &Dec::new(3333, 3)).expect("a").to_text(), "5.00");
    assert_eq!(format_cycle(BillingCycle::Quarterly), "Quarterly");
}

#[test]
fn draft_without_subscription_or_coupon_is_empty() {
    let mut req = request(None);
    req.subscription_id = None;
    req.tax_rate = None;
    let d = build_invoice_draft(req, "INV-9".to_string(), None, None).expect("draft");
    assert!(d.line_items.is_empty());
    assert!(d.total.is_zero());
    assert_eq!(d.currency, "USD");
}

#[test]
fn document_numbers_are_padded_to_eight_digits() {
    assert_eq!(document_number("INV-", 42), "INV-00000042");
    assert_eq!(document_number("CN-", 7), "CN-00000007");
    assert_eq!(document_number("INV-", 123_456_789), "INV-12345678");
}

#[test]
fn update_notices_follow_status() {
    let n = update_notices(Some(InvoiceStatus::Paid));
    assert!(n.paid && !n.issued);
    let n = update_notices(Some(InvoiceStatus::Issued));
    assert!(!n.paid && n.issued);
    assert_eq!(notice_due_date(None).expect("n/a"), "N/A");
    assert_eq!(notice_due_date(Some(1_769_904_000)).expect("date"), "2026-02-01");
}
