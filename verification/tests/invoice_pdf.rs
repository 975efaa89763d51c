use rustbill_core::billing::invoice_pdf::{
    city_state_line, format_currency, generate_invoice_pdf_layout, invoice_layout,
    truncate_description, GenerateInvoicePdfRequest, InvoicePdfRepository, PdfOp,
};
use rustbill_core::error::BillingError;
use rustbill_core::models::{Customer, Invoice, InvoiceItem, InvoiceStatus};
use rustbill_core::money::Dec;

struct StubRepo {
    invoice: Option<Invoice>,
    customer: Option<Customer>,
    items: Vec<InvoiceItem>,
}

impl InvoicePdfRepository for StubRepo {
    fn get_invoice(&self, _id: &str) -> Result<Invoice, BillingError> {
        self.invoice.clone().ok_or(BillingError::NotFound { entity: "invoice".to_string(), id: "inv_1".to_string() })
    }
    fn get_customer(&self, _id: &str) -> Result<Option<Customer>, BillingError> {
        Ok(self.customer.clone())
    }
    fn list_invoice_items(&self, _id: &str) -> Result<Vec<InvoiceItem>, BillingError> {
        Ok(self.items.clone())
    }
}

fn sample_invoice() -> Invoice {
    Invoice {
        id: "inv_1".to_string(),
        invoice_number: "INV-00000001".to_string(),
        customer_id: "cus_1".to_string(),
        subscription_id: None,
        status: InvoiceStatus::Issued,
        issued_at: Some(1_767_225_600),
        due_at: Some(1_769_904_000),
        paid_at: None,
        subtotal: Dec::from_int(100),
        tax: Dec::from_int(10),
        total: Dec::from_int(110),
        currency: "USD".to_string(),
        notes: Some("Thanks".to_string()),
        version: 1,
        credits_applied: Dec::zero(),
        amount_due: Dec::from_int(110),
        auto_charge_attempts: 0,
    }
}

fn sample_customer() -> Customer {
    Customer {
        id: "cus_1".to_string(),
        name: "Acme".to_string(),
        email: "jane@acme.test".to_string(),
        billing_email: Some("billing@acme.test".to_string()),
        billing_address: Some("123 Road".to_string()),
        billing_city: Some("Austin".to_string()),
        billing_state: Some("TX".to_string()),
        billing_zip: Some("78701".to_string()),
        billing_country: Some("US".to_string()),
        stripe_customer_id: None,
        xendit_customer_id: None,
    }
}

fn sample_item(description: &str) -> InvoiceItem {
    InvoiceItem {
        id: "item_1".to_string(),
        invoice_id: "inv_1".to_string(),
        description: description.to_string(),
        quantity: Dec::from_int(1),
        unit_price: Dec::from_int(100),
        amount: Dec::from_int(100),
        period_start: None,
        period_end: None,
    }
}

fn texts(ops: &[PdfOp]) -> Vec<String> {
    ops.iter()
        .filter_map(|o| match o {
            PdfOp::Text(t) => Some(t.text.clone()),
            PdfOp::Rule(_) => None,
        })
        .collect()
}

#[test]
fn generate_invoice_pdf_returns_pdf_bytes() {
    let repo = StubRepo { invoice: Some(sample_invoice()), customer: Some(sample_customer()), items: vec![sample_item("Design work")] };
    let layout = generate_invoice_pdf_layout(&repo, GenerateInvoicePdfRequest { invoice_id: "inv_1".to_string() }).expect("generate_invoice_pdf");
    assert_eq!(layout.title, "Invoice INV-00000001");
    let t = texts(&layout.ops);
    assert!(t.contains(&"Design work".to_string()));
    assert!(t.contains(&"Status: Issued".to_string()));
    assert!(t.contains(&"Austin, TX, 78701".to_string()));
    assert!(t.contains(&"Issued: 2026-01-01".to_string()));
    assert!(t.contains(&"Due: 2026-02-01".to_string()));
    assert!(t.contains(&"USD 110".to_string()));
    assert_eq!(t.last().map(String::as_str), Some("Thank you for your business."));
}

#[test]
fn generate_invoice_pdf_handles_non_ascii_long_descriptions() {
    let desc = "日本語の説明がとても長いので安全に切り詰める必要があります".repeat(3);
    let repo = StubRepo { invoice: Some(sample_invoice()), customer: Some(sample_customer()), items: vec![sample_item(&desc)] };
    let layout = generate_invoice_pdf_layout(&repo, GenerateInvoicePdfRequest { invoice_id: "inv_1".to_string() }).expect("generate_invoice_pdf");
    let row = match &layout.ops[layout.first_row] {
        PdfOp::Text(t) => t.text.clone(),
        PdfOp::Rule(_) => panic!("expected a text"),
    };
    assert_eq!(row.chars().count(), 50);
    assert!(row.ends_with("..."));
}

#[test]
fn generate_invoice_pdf_returns_not_found_when_customer_missing() {
    let repo = StubRepo { invoice: Some(sample_invoice()), customer: None, items: Vec::new() };
    let err = generate_invoice_pdf_layout(&repo, GenerateInvoicePdfRequest { invoice_id: "inv_1".to_string() }).expect_err("should fail");
    assert!(err.message().contains("not found"));
}

#[test]
fn truncation_and_currency_text() {
    assert_eq!(truncate_description("short", 50), "short");
    assert_eq!(truncate_description("abcdef", 5), "ab...");
    assert_eq!(truncate_description("abcdef", 2), "...");
    assert_eq!(format_currency(&Dec::new(1999, 2), "EUR"), "EUR 19.99");
}

#[test]
fn city_line_skips_missing_parts() {
    let mut c = sample_customer();
    c.billing_state = None;
    assert_eq!(city_state_line(&c), "Austin, 78701");
    c.billing_city = Some(String::new());
    assert_eq!(city_state_line(&c), "78701");
}

#[test]
fn many_items_stop_at_page_floor() {
    let items: Vec<InvoiceItem> = (0..60).map(|_| sample_item("line")).collect();
    let layout = invoice_layout(&sample_invoice(), &sample_customer(), &items).expect("layout");
    assert!(layout.rows < 60);
    assert_eq!(layout.rows, 32);
}

fn text_at(ops: &[PdfOp], i: usize) -> (String, i32, i32, bool) {
    match &ops[i] {
        PdfOp::Text(t) => (t.text.clone(), t.x_mm, t.y_mm, t.bold),
        PdfOp::Rule(_) => panic!("expected a text at {i}"),
    }
}

#[test]
fn totals_dates_and_notes_are_placed_after_the_rows() {
    let repo = StubRepo { invoice: Some(sample_invoice()), customer: Some(sample_customer()), items: vec![sample_item("Design work")] };
    let layout = generate_invoice_pdf_layout(&repo, GenerateInvoicePdfRequest { invoice_id: "inv_1".to_string() }).expect("layout");
    let ops = &layout.ops;
    // Address and city lines are present, so the dates start at index 8.
    assert_eq!(text_at(ops, 8), ("Dates:".to_string(), 120, 234, true));
    assert_eq!(text_at(ops, 9), ("Issued: 2026-01-01".to_string(), 120, 228, false));
    assert_eq!(text_at(ops, 10), ("Due: 2026-02-01".to_string(), 120, 222, false));
    let t = layout.first_row + 4 * layout.rows;
    assert!(matches!(&ops[t], PdfOp::Rule(r) if r.x1_mm == 110 && r.x2_mm == 190 && r.y_mm == 185));
    assert_eq!(text_at(ops, t + 1), ("Subtotal:".to_string(), 130, 179, false));
    assert_eq!(text_at(ops, t + 2), ("USD 100".to_string(), 165, 179, false));
    assert_eq!(text_at(ops, t + 3), ("Tax:".to_string(), 130, 174, false));
    assert_eq!(text_at(ops, t + 4), ("USD 10".to_string(), 165, 174, false));
    assert_eq!(text_at(ops, t + 5), ("Total:".to_string(), 130, 168, true));
    assert_eq!(text_at(ops, t + 6), ("USD 110".to_string(), 165, 168, true));
    assert_eq!(text_at(ops, t + 7), ("Notes:".to_string(), 20, 153, true));
    assert_eq!(text_at(ops, t + 8), ("Thanks".to_string(), 20, 148, false));
    assert_eq!(ops.len(), t + 10);
}

#[test]
fn page_without_notes_or_dates_ends_after_the_totals() {
    let mut inv = sample_invoice();
    inv.notes = None;
    inv.issued_at = None;
    inv.due_at = None;
    let layout = invoice_layout(&inv, &sample_customer(), &vec![sample_item("Design work")]).expect("layout");
    let t = layout.first_row + 4 * layout.rows;
    assert_eq!(layout.ops.len(), t + 8);
    assert_eq!(text_at(&layout.ops, 8).0, "Dates:");
    assert_eq!(text_at(&layout.ops, 9).0, "Description");
}
