use std::cell::RefCell;

use rustbill_core::billing::checkout::{
    checkout_gate, create_checkout, to_checkout_result, CheckoutContext, CheckoutProviderResult,
    CheckoutRepository, CheckoutRequest,
};
use rustbill_core::error::BillingError;
use rustbill_core::models::{Customer, Invoice, InvoiceStatus};
use rustbill_core::money::Dec;

#[derive(Default)]
struct StubRepo {
    invoice: Option<Invoice>,
    customer: Option<Customer>,
    xendit_called: RefCell<bool>,
    xendit_saved_id: RefCell<Option<String>>,
    lemonsqueezy_saved_id: RefCell<Option<String>>,
}

impl CheckoutRepository for StubRepo {
    fn find_invoice(&self, _id: &str) -> Result<Invoice, BillingError> {
        self.invoice.clone().ok_or(BillingError::NotFound { entity: "invoice".to_string(), id: "inv_1".to_string() })
    }
    fn find_customer(&self, _id: &str) -> Result<Customer, BillingError> {
        self.customer.clone().ok_or(BillingError::NotFound { entity: "customer".to_string(), id: "cust_1".to_string() })
    }
    fn create_xendit_checkout(&mut self, _ctx: &CheckoutContext) -> Result<CheckoutProviderResult, BillingError> {
        *self.xendit_called.borrow_mut() = true;
        Ok(CheckoutProviderResult { checkout_url: "https://xendit.example/checkout".to_string(), provider_reference: "xendit_inv_1".to_string() })
    }
    fn save_xendit_invoice_id(&mut self, _invoice_id: &str, provider_id: &str) -> Result<(), BillingError> {
        *self.xendit_saved_id.borrow_mut() = Some(provider_id.to_string());
        Ok(())
    }
    fn create_lemonsqueezy_checkout(&mut self, _ctx: &CheckoutContext) -> Result<CheckoutProviderResult, BillingError> {
        Ok(CheckoutProviderResult { checkout_url: "https://lemonsqueezy.example/checkout".to_string(), provider_reference: "ls_1".to_string() })
    }
    fn save_lemonsqueezy_checkout_id(&mut self, _invoice_id: &str, provider_id: &str) -> Result<(), BillingError> {
        *self.lemonsqueezy_saved_id.borrow_mut() = Some(provider_id.to_string());
        Ok(())
    }
}

fn sample_invoice(status: InvoiceStatus) -> Invoice {
    Invoice {
        id: "inv_1".to_string(),
        invoice_number: "INV-00000001".to_string(),
        customer_id: "cust_1".to_string(),
        subscription_id: None,
        status,
        issued_at: None,
        due_at: None,
        paid_at: None,
        subtotal: Dec::from_int(100),
        tax: Dec::zero(),
        total: Dec::from_int(100),
        currency: "USD".to_string(),
        notes: None,
        version: 1,
        credits_applied: Dec::zero(),
        amount_due: Dec::from_int(100),
        auto_charge_attempts: 0,
    }
}

fn sample_customer() -> Customer {
    Customer {
        id: "cust_1".to_string(),
        name: "Acme".to_string(),
        email: "ops@acme.test".to_string(),
        billing_email: None,
        billing_address: None,
        billing_city: None,
        billing_state: None,
        billing_zip: None,
        billing_country: None,
        stripe_customer_id: Some("cus_123".to_string()),
        xendit_customer_id: Some("xendit_cus_123".to_string()),
    }
}

fn sample_request(provider: &str) -> CheckoutRequest {
    CheckoutRequest { invoice_id: "inv_1".to_string(), provider: provider.to_string(), origin: "https://billing.example.com".to_string() }
}

fn repo(status: InvoiceStatus) -> StubRepo {
    StubRepo { invoice: Some(sample_invoice(status)), customer: Some(sample_customer()), ..StubRepo::default() }
}

#[test]
fn stripe_checkout_returns_placeholder_url() {
    let mut r = repo(InvoiceStatus::Issued);
    let result = create_checkout(&mut r, sample_request("stripe")).expect("stripe checkout");
    assert_eq!(result.provider, "stripe");
    assert!(result.checkout_url.contains("checkout.stripe.com"));
    assert_eq!(
        result.checkout_url,
        "https://checkout.stripe.com/pay/placeholder?invoice=inv_1&amount=100&currency=USD&success_url=https%3A%2F%2Fbilling.example.com%2Fcheckout%2Fsuccess%3Finvoice_id%3Dinv_1&cancel_url=https%3A%2F%2Fbilling.example.com%2Fcheckout%2Fcancel%3Finvoice_id%3Dinv_1"
    );
}

#[test]
fn paid_invoice_is_rejected() {
    let mut r = repo(InvoiceStatus::Paid);
    let err = create_checkout(&mut r, sample_request("stripe")).expect_err("paid invoice should fail");
    assert!(matches!(err, BillingError::BadRequest(m) if m.contains("already paid")));
}

#[test]
fn xendit_path_persists_provider_id() {
    let mut r = repo(InvoiceStatus::Issued);
    let result = create_checkout(&mut r, sample_request("xendit")).expect("xendit checkout");
    assert_eq!(result.provider, "xendit");
    assert!(*r.xendit_called.borrow());
    assert_eq!(r.xendit_saved_id.borrow().as_deref(), Some("xendit_inv_1"));
}

#[test]
fn unknown_provider_returns_configuration_error() {
    let mut r = repo(InvoiceStatus::Issued);
    let err = create_checkout(&mut r, sample_request("unknown")).expect_err("unknown provider should fail");
    assert!(matches!(err, BillingError::ProviderNotConfigured(p) if p == "unknown"));
    assert!(err_message(&mut r).contains("provider not configured"));
}

fn err_message(r: &mut StubRepo) -> String {
    create_checkout(r, sample_request("unknown")).expect_err("fail").message()
}

#[test]
fn void_invoice_and_missing_provider_ids() {
    assert!(matches!(checkout_gate(InvoiceStatus::Void).expect_err("void"), BillingError::BadRequest(m) if m == "invoice has been voided"));
    let mut r = repo(InvoiceStatus::Issued);
    let mut c = sample_customer();
    c.stripe_customer_id = None;
    c.xendit_customer_id = None;
    r.customer = Some(c);
    assert!(matches!(create_checkout(&mut r, sample_request("stripe")).expect_err("x"), BillingError::BadRequest(m) if m == "customer does not have a Stripe customer ID configured"));
    assert!(matches!(create_checkout(&mut r, sample_request("xendit")).expect_err("x"), BillingError::BadRequest(m) if m == "customer does not have a Xendit customer ID configured"));
    let ls = create_checkout(&mut r, sample_request("lemonsqueezy")).expect("ls");
    assert_eq!(ls.provider, "lemonsqueezy");
    assert_eq!(r.lemonsqueezy_saved_id.borrow().as_deref(), Some("ls_1"));
    let res = to_checkout_result(CheckoutProviderResult { checkout_url: "u".to_string(), provider_reference: "p".to_string() }, "x");
    assert_eq!((res.checkout_url.as_str(), res.provider.as_str()), ("u", "x"));
}
