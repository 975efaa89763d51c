use std::cell::Cell;

use rustbill_core::billing::auto_charge::charge_precheck;
use rustbill_core::billing::auto_charge::{
    classify_stripe_response, classify_xendit_response, decimal_to_minor_units,
    stripe_charge_form, try_auto_charge, xendit_external_id, AutoChargeContext, AutoChargeRepository, ChargeResult,
    StripeChargeResponse, XenditChargeResponse,
};
use rustbill_core::error::BillingError;
use rustbill_core::models::{
    Invoice, InvoiceStatus, PaymentProvider, SavedPaymentMethod, SavedPaymentMethodStatus,
    SavedPaymentMethodType,
};
use rustbill_core::money::Dec;

#[derive(Default)]
struct StubRepo {
    attempts: Cell<usize>,
    stripe_calls: Cell<usize>,
    xendit_calls: Cell<usize>,
}

impl AutoChargeRepository for StubRepo {
    fn increment_attempts(&mut self, _id: &str) -> Result<(), BillingError> {
        self.attempts.set(self.attempts.get() + 1);
        Ok(())
    }
    fn get_setting(&self, _key: &str) -> Result<String, BillingError> {
        Ok(String::new())
    }
    fn stripe_charge(&mut self, _c: &AutoChargeContext, _a: Dec) -> Result<ChargeResult, BillingError> {
        self.stripe_calls.set(self.stripe_calls.get() + 1);
        Ok(ChargeResult::TransientFailure("stripe transient".to_string()))
    }
    fn xendit_charge(&mut self, _c: &AutoChargeContext, _a: Dec) -> Result<ChargeResult, BillingError> {
        self.xendit_calls.set(self.xendit_calls.get() + 1);
        Ok(ChargeResult::TransientFailure("xendit transient".to_string()))
    }
}

fn sample_invoice(amount_due: Dec) -> Invoice {
    Invoice {
        id: "inv_1".to_string(),
        invoice_number: "INV-00000001".to_string(),
        customer_id: "cust_1".to_string(),
        subscription_id: None,
        status: InvoiceStatus::Issued,
        issued_at: None,
        due_at: None,
        paid_at: None,
        subtotal: amount_due,
        tax: Dec::zero(),
        total: amount_due,
        currency: "USD".to_string(),
        notes: None,
        version: 1,
        credits_applied: Dec::zero(),
        amount_due,
        auto_charge_attempts: 0,
    }
}

fn sample_method(provider: PaymentProvider, token: &str) -> SavedPaymentMethod {
    SavedPaymentMethod {
        id: "pm_1".to_string(),
        customer_id: "cust_1".to_string(),
        provider,
        provider_token: token.to_string(),
        method_type: SavedPaymentMethodType::Card,
        label: "card".to_string(),
        last_four: Some("4242".to_string()),
        expiry_month: Some(12),
        expiry_year: Some(2030),
        is_default: true,
        status: SavedPaymentMethodStatus::Active,
    }
}

fn context(amount: Dec, provider: PaymentProvider, token: &str) -> AutoChargeContext {
    AutoChargeContext { invoice: sample_invoice(amount), payment_method: sample_method(provider, token) }
}

#[test]
fn zero_due_returns_success_without_attempts() {
    let mut repo = StubRepo::default();
    let result = try_auto_charge(&mut repo, &context(Dec::zero(), PaymentProvider::Stripe, "pm_real")).expect("auto-charge");
    assert!(matches!(result, ChargeResult::Success { provider_reference: None }));
    assert_eq!(repo.attempts.get(), 0);
}

#[test]
fn stripe_test_success_short_circuits() {
    let mut repo = StubRepo::default();
    let result = try_auto_charge(&mut repo, &context(Dec::from_int(100), PaymentProvider::Stripe, "test_success_card")).expect("auto-charge");
    assert!(matches!(result, ChargeResult::Success { provider_reference: Some(r) } if r == "pi_test_success"));
    assert_eq!(repo.attempts.get(), 1);
    assert_eq!(repo.stripe_calls.get(), 0);
}

#[test]
fn stripe_non_test_delegates_to_repository() {
    let mut repo = StubRepo::default();
    let result = try_auto_charge(&mut repo, &context(Dec::from_int(100), PaymentProvider::Stripe, "pm_live")).expect("auto-charge");
    assert!(matches!(result, ChargeResult::TransientFailure(_)));
    assert_eq!(repo.attempts.get(), 1);
    assert_eq!(repo.stripe_calls.get(), 1);
}

#[test]
fn lemonsqueezy_returns_managed_externally() {
    let mut repo = StubRepo::default();
    let result = try_auto_charge(&mut repo, &context(Dec::from_int(100), PaymentProvider::Lemonsqueezy, "ls_123")).expect("auto-charge");
    assert!(matches!(result, ChargeResult::ManagedExternally));
    assert_eq!(repo.attempts.get(), 1);
    assert_eq!(repo.stripe_calls.get(), 0);
    assert_eq!(repo.xendit_calls.get(), 0);
}

#[test]
fn xendit_test_tokens() {
    let mut repo = StubRepo::default();
    let ok = try_auto_charge(&mut repo, &context(Dec::from_int(5), PaymentProvider::Xendit, "test_success")).expect("ok");
    assert!(matches!(ok, ChargeResult::Success { provider_reference: Some(r) } if r == "xendit_test_success"));
    let declined = try_auto_charge(&mut repo, &context(Dec::from_int(5), PaymentProvider::Xendit, "test_permanent_x")).expect("ok");
    assert!(matches!(declined, ChargeResult::PermanentFailure(m) if m == "simulated permanent decline"));
    assert_eq!(repo.xendit_calls.get(), 0);
}

fn stripe(status: u16, error_type: Option<&str>, code: Option<&str>, message: Option<&str>) -> StripeChargeResponse {
    StripeChargeResponse {
        status,
        id: Some("pi_1".to_string()),
        error_type: error_type.map(str::to_string),
        error_code: code.map(str::to_string),
        error_message: message.map(str::to_string),
    }
}

#[test]
fn stripe_answers_are_classified() {
    assert!(matches!(classify_stripe_response(&stripe(200, None, None, None)), ChargeResult::Success { provider_reference: Some(r) } if r == "pi_1"));
    assert!(matches!(classify_stripe_response(&stripe(402, None, None, Some("no"))), ChargeResult::PermanentFailure(m) if m == "no"));
    assert!(matches!(classify_stripe_response(&stripe(400, Some("card_error"), None, None)), ChargeResult::PermanentFailure(m) if m == "stripe charge failed"));
    assert!(matches!(classify_stripe_response(&stripe(503, None, Some("expired_card"), None)), ChargeResult::PermanentFailure(_)));
    assert!(matches!(classify_stripe_response(&stripe(503, None, None, None)), ChargeResult::TransientFailure(_)));
    assert!(matches!(classify_stripe_response(&stripe(429, None, None, None)), ChargeResult::TransientFailure(_)));
    assert!(matches!(classify_stripe_response(&stripe(400, Some("invalid_request_error"), None, None)), ChargeResult::PermanentFailure(_)));
}

fn xendit(status: u16, state: Option<&str>, code: Option<&str>) -> XenditChargeResponse {
    XenditChargeResponse { status, id: Some("ch_1".to_string()), charge_status: state.map(str::to_string), error_code: code.map(str::to_string), message: None }
}

#[test]
fn xendit_answers_are_classified() {
    assert!(matches!(classify_xendit_response(&xendit(200, Some("CAPTURED"), None)), ChargeResult::Success { .. }));
    assert!(matches!(classify_xendit_response(&xendit(200, None, None)), ChargeResult::Success { .. }));
    assert!(matches!(classify_xendit_response(&xendit(200, Some("PENDING"), None)), ChargeResult::TransientFailure(m) if m == "xendit charge status: PENDING"));
    assert!(matches!(classify_xendit_response(&xendit(400, None, Some("CARD_DECLINED"))), ChargeResult::PermanentFailure(m) if m == "xendit charge failed"));
    assert!(matches!(classify_xendit_response(&xendit(500, None, None)), ChargeResult::TransientFailure(_)));
    assert!(matches!(classify_xendit_response(&xendit(404, None, None)), ChargeResult::PermanentFailure(_)));
}

#[test]
fn minor_units_round_half_to_even() {
    assert_eq!(decimal_to_minor_units(&Dec::new(12345, 3)), 1234);
    assert_eq!(decimal_to_minor_units(&Dec::new(12355, 3)), 1236);
    assert_eq!(decimal_to_minor_units(&Dec::from_int(47)), 4700);
}

#[test]
fn stripe_form_fields() {
    let ctx = context(Dec::new(4725, 2), PaymentProvider::Stripe, "pm_live");
    let form = stripe_charge_form(&ctx, &ctx.invoice.amount_due);
    assert_eq!(form[0], ("amount".to_string(), "4725".to_string()));
    assert_eq!(form[1], ("currency".to_string(), "usd".to_string()));
    assert_eq!(form[5].1, "Invoice INV-00000001 auto-charge");
    assert_eq!(form[7], ("metadata[payment_method_id]".to_string(), "pm_1".to_string()));
}

#[test]
fn precheck_answers_unconfigured_providers() {
    let none = String::new();
    let key = "sk_live".to_string();
    assert!(matches!(charge_precheck(PaymentProvider::Stripe, &none, &Dec::from_int(10)),
        Ok(Some(ChargeResult::TransientFailure(m))) if m == "stripe is not configured"));
    assert!(matches!(charge_precheck(PaymentProvider::Xendit, &none, &Dec::from_int(10)),
        Ok(Some(ChargeResult::TransientFailure(m))) if m == "xendit is not configured"));
    assert!(matches!(charge_precheck(PaymentProvider::Stripe, &key, &Dec::from_int(10)), Ok(None)));
    let max = Dec::from_parts(79_228_162_514_264_337_593_543_950_335, 0).expect("max");
    assert!(matches!(charge_precheck(PaymentProvider::Stripe, &key, &max), Err(BillingError::Internal(_))));
    assert!(matches!(charge_precheck(PaymentProvider::Xendit, &key, &max), Ok(None)));
}

#[test]
fn xendit_charge_reference_names_the_invoice() {
    assert_eq!(xendit_external_id("inv_42"), "invoice-inv_42");
}
