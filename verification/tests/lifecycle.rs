use rustbill_core::billing::lifecycle::{ advanced_subscription, canceled_subscription, cancellation_due, converted_trial, pre_generatable, renewable, renewal_due_at, trial_expired, };
use rustbill_core::billing::lifecycle::{generate_pending_invoices, renew_single_subscription, renewal_totals};
use std::cell::RefCell;

use rustbill_core::analytics::sales_ledger::{MetadataValue, SalesClassification, SalesEventSpec};
use rustbill_core::billing::auto_charge::ChargeResult;
use rustbill_core::billing::invoices::InvoiceItemDraft;
use rustbill_core::billing::lifecycle::{
    advance_period, auto_charge_payment, charge_follow_up, compute_quantity, contributes_to_mrr,
    emit_mrr_change_event, mrr_change_event, pre_generation_due, pre_renewal_invoice_days,
    provider_name, renew_active_subscriptions, renewal_charge_due, renewal_invoice_key,
    renewal_line_items, renewal_note, renewal_settlement, run_full_lifecycle, tax_total,
    ChargeFollowUp, LifecycleRepository, LifecycleResult, RenewalDiscount, RenewalInvoiceOutput,
    SubscriptionTransition,
};
use rustbill_core::error::BillingError;
use rustbill_core::models::{
    BillingCycle, DiscountType, Invoice, InvoiceStatus, MetadataNumber, PaymentMethod,
    PaymentProvider, PricingModel, PricingPlan, SavedPaymentMethod, SavedPaymentMethodStatus,
    SavedPaymentMethodType, Subscription, SubscriptionStatus,
};
use rustbill_core::money::Dec;
use rustbill_core::time::days_until;

const JAN_1_2026: i64 = 1_767_225_600;
const FEB_1_2026: i64 = 1_769_904_000;

fn sample_plan(price: i64) -> PricingPlan {
    PricingPlan {
        id: "plan_1".to_string(),
        name: "Starter".to_string(),
        pricing_model: PricingModel::Flat,
        billing_cycle: BillingCycle::Monthly,
        base_price: Dec::from_int(price),
        unit_price: None,
        usage_metric_name: None,
        trial_days: 0,
        active: true,
    }
}

fn sample_subscription(status: SubscriptionStatus) -> Subscription {
    Subscription {
        id: "sub_1".to_string(),
        customer_id: "cus_1".to_string(),
        plan_id: "plan_1".to_string(),
        status,
        current_period_start: JAN_1_2026,
        current_period_end: FEB_1_2026,
        canceled_at: None,
        cancel_at_period_end: false,
        trial_end: None,
        quantity: 1,
        managed_by: None,
        version: 2,
        meta_pre_renewal_days: MetadataNumber::Absent,
        meta_pre_renewal_days_snake: MetadataNumber::Absent,
    }
}

fn sample_invoice(status: InvoiceStatus, amount_due: i64) -> Invoice {
    Invoice {
        id: "inv_1".to_string(),
        invoice_number: "INV-00000001".to_string(),
        customer_id: "cus_1".to_string(),
        subscription_id: Some("sub_1".to_string()),
        status,
        issued_at: None,
        due_at: None,
        paid_at: None,
        subtotal: Dec::from_int(amount_due),
        tax: Dec::zero(),
        total: Dec::from_int(amount_due),
        currency: "USD".to_string(),
        notes: None,
        version: 1,
        credits_applied: Dec::zero(),
        amount_due: Dec::from_int(amount_due),
        auto_charge_attempts: 0,
    }
}

fn sample_method(provider: PaymentProvider) -> SavedPaymentMethod {
    SavedPaymentMethod {
        id: "pm_1".to_string(),
        customer_id: "cus_1".to_string(),
        provider,
        provider_token: "pm_token".to_string(),
        method_type: SavedPaymentMethodType::Card,
        label: "card".to_string(),
        last_four: Some("4242".to_string()),
        expiry_month: Some(12),
        expiry_year: Some(2030),
        is_default: true,
        status: SavedPaymentMethodStatus::Active,
    }
}

#[derive(Default)]
struct StubRepo {
    plan: Option<PricingPlan>,
    emitted_events: RefCell<Vec<SalesEventSpec>>,
    renewable: Vec<Subscription>,
    fail_renewal_for: Option<String>,
    advanced: RefCell<Vec<(String, i64)>>,
    existing: Option<Invoice>,
    method: Option<SavedPaymentMethod>,
    charges: RefCell<Vec<String>>,
}

impl LifecycleRepository for StubRepo {
    fn convert_expired_trials(&mut self, _now: i64) -> Result<Vec<SubscriptionTransition>, BillingError> {
        Ok(Vec::new())
    }
    fn cancel_at_period_end(&mut self, _now: i64) -> Result<Vec<SubscriptionTransition>, BillingError> {
        Ok(Vec::new())
    }
    fn list_pre_generatable_subscriptions(&self, _now: i64, _window_end: i64) -> Result<Vec<Subscription>, BillingError> {
        Ok(Vec::new())
    }
    fn list_renewable_subscriptions(&self, _now: i64) -> Result<Vec<Subscription>, BillingError> {
        Ok(self.renewable.clone())
    }
    fn find_plan(&self, _plan_id: &str) -> Result<PricingPlan, BillingError> {
        Ok(self.plan.clone().expect("plan"))
    }
    fn plan_amount(&self, plan: &PricingPlan, _quantity: i32) -> Result<Dec, BillingError> {
        Ok(plan.base_price)
    }
    fn find_existing_renewal_invoice(&self, _sub: &Subscription, _period_start: i64) -> Result<Option<Invoice>, BillingError> {
        Ok(self.existing.clone())
    }
    fn ensure_renewal_invoice(&mut self, sub: &Subscription, _now: i64, _notify: bool) -> Result<Option<RenewalInvoiceOutput>, BillingError> {
        if self.fail_renewal_for.as_deref() == Some(sub.id.as_str()) {
            return Err(BillingError::Internal("db down".to_string()));
        }
        Ok(Some(RenewalInvoiceOutput {
            invoice: sample_invoice(InvoiceStatus::Issued, 25),
            final_amount_due: Dec::from_int(25),
            total: Dec::from_int(25),
            invoice_number: "INV-00000001".to_string(),
            plan_name: "Starter".to_string(),
            new_period_end: 0,
        }))
    }
    fn advance_subscription_period(&mut self, subscription_id: &str, new_period_end: i64) -> Result<(), BillingError> {
        self.advanced.borrow_mut().push((subscription_id.to_string(), new_period_end));
        Ok(())
    }
    fn get_default_payment_method(&self, _customer_id: &str) -> Result<Option<SavedPaymentMethod>, BillingError> {
        Ok(self.method.clone())
    }
    fn try_auto_charge(&mut self, invoice: &Invoice, _pm: &SavedPaymentMethod) -> Result<ChargeResult, BillingError> {
        self.charges.borrow_mut().push(invoice.id.clone());
        Ok(ChargeResult::ManagedExternally)
    }
    fn settle_auto_charge_success(&mut self, _invoice: &Invoice, _pm: &SavedPaymentMethod, _r: Option<&str>) -> Result<(), BillingError> {
        Ok(())
    }
    fn mark_payment_method_failed(&mut self, _method_id: &str) -> Result<(), BillingError> {
        Ok(())
    }
    fn emit_sales_event(&mut self, event: SalesEventSpec) -> Result<(), BillingError> {
        self.emitted_events.borrow_mut().push(event);
        Ok(())
    }
    fn dispatch_subscription_renewed_side_effects(&mut self, _s: &Subscription, _o: &RenewalInvoiceOutput) -> Result<(), BillingError> {
        Ok(())
    }
}

#[test]
fn pre_renewal_invoice_days_defaults_and_clamps() {
    let mut sub = sample_subscription(SubscriptionStatus::Active);
    assert_eq!(pre_renewal_invoice_days(&sub), 7);

    sub.meta_pre_renewal_days = MetadataNumber::Integer(120);
    assert_eq!(pre_renewal_invoice_days(&sub), 90);

    sub.meta_pre_renewal_days = MetadataNumber::Absent;
    sub.meta_pre_renewal_days_snake = MetadataNumber::Integer(-4);
    assert_eq!(pre_renewal_invoice_days(&sub), 0);
}

#[test]
fn days_until_rounds_up_partial_days() {
    let from = JAN_1_2026;
    let same_day = from + 12 * 3600;
    let past = from - 3600;

    assert_eq!(days_until(from, same_day), 1);
    assert_eq!(days_until(from, past), 0);
}

#[test]
fn emit_mrr_change_event_marks_churn_correctly() {
    let mut repo = StubRepo { plan: Some(sample_plan(25)), ..StubRepo::default() };
    let before = sample_subscription(SubscriptionStatus::Active);
    let mut after = sample_subscription(SubscriptionStatus::Canceled);
    after.version = 3;

    emit_mrr_change_event(&mut repo, &before, &after, "test_trigger");

    let events = repo.emitted_events.borrow();
    assert_eq!(events.len(), 1);
    assert_eq!(events[0].event_type, "mrr_churned");
    assert_eq!(events[0].source_table, "subscription_revisions");
    assert_eq!(events[0].metadata.len(), 7);
    assert_eq!(events[0].metadata[0].key, "trigger");
    assert!(matches!(&events[0].metadata[0].value, MetadataValue::Text(t) if t == "test_trigger"));
    assert!(matches!(events[0].metadata[2].value, MetadataValue::SubscriptionStatus(SubscriptionStatus::Canceled)));
}

#[test]
fn emit_mrr_change_event_skips_zero_delta() {
    let mut repo = StubRepo { plan: Some(sample_plan(25)), ..StubRepo::default() };
    let before = sample_subscription(SubscriptionStatus::Active);
    let mut after = sample_subscription(SubscriptionStatus::PastDue);
    after.version = 4;

    emit_mrr_change_event(&mut repo, &before, &after, "test_trigger");

    assert!(repo.emitted_events.borrow().is_empty());
}

#[test]
fn metadata_camel_case_wins_even_when_not_an_integer() {
    let mut sub = sample_subscription(SubscriptionStatus::Active);
    sub.meta_pre_renewal_days = MetadataNumber::NotInteger;
    sub.meta_pre_renewal_days_snake = MetadataNumber::Integer(30);
    assert_eq!(pre_renewal_invoice_days(&sub), 7);
}

#[test]
fn only_active_and_past_due_count_for_mrr() {
    assert!(contributes_to_mrr(&SubscriptionStatus::Active));
    assert!(contributes_to_mrr(&SubscriptionStatus::PastDue));
    assert!(!contributes_to_mrr(&SubscriptionStatus::Trialing));
    assert!(!contributes_to_mrr(&SubscriptionStatus::Canceled));
    assert!(!contributes_to_mrr(&SubscriptionStatus::Paused));
}

#[test]
fn mrr_event_kinds_and_source_id() {
    let before = sample_subscription(SubscriptionStatus::Active);
    let mut after = sample_subscription(SubscriptionStatus::Active);
    after.version = 7;
    let ev = mrr_change_event(&before, &after, &Dec::from_int(25), &Dec::from_int(40), "test_trigger")
        .expect("ok")
        .expect("event");
    assert_eq!(ev.event_type, "mrr_expanded");
    assert_eq!(ev.source_id, "sub_1:v7");
    assert_eq!(ev.amount_total.to_text(), "15");
    assert_eq!(ev.currency, "USD");
    assert_eq!(ev.classification, SalesClassification::Recurring);
    let ev = mrr_change_event(&before, &after, &Dec::from_int(40), &Dec::from_int(25), "test_trigger")
        .expect("ok")
        .expect("event");
    assert_eq!(ev.event_type, "mrr_contracted");
    let paused = sample_subscription(SubscriptionStatus::Paused);
    let ev = mrr_change_event(&before, &paused, &Dec::from_int(40), &Dec::from_int(40), "test_trigger")
        .expect("ok")
        .expect("event");
    assert_eq!(ev.event_type, "mrr_contracted");
}

#[test]
fn pre_generation_window() {
    let sub = sample_subscription(SubscriptionStatus::Active);
    assert!(pre_generation_due(&sub, FEB_1_2026 - 3 * 86_400));
    assert!(!pre_generation_due(&sub, FEB_1_2026 - 8 * 86_400));
    assert!(!pre_generation_due(&sub, FEB_1_2026));
}

#[test]
fn monthly_period_advances_one_calendar_month() {
    assert_eq!(advance_period(JAN_1_2026, BillingCycle::Monthly), Some(FEB_1_2026));
    assert_eq!(advance_period(JAN_1_2026, BillingCycle::Yearly), Some(1_798_761_600));
}

#[test]
fn renewal_key_and_note() {
    let sub = sample_subscription(SubscriptionStatus::Active);
    assert_eq!(renewal_invoice_key(&sub, FEB_1_2026).expect("key"), "renewal:sub_1:20260201000000");
    assert_eq!(renewal_note(&sub), "Auto-renewal for subscription sub_1");
}

#[test]
fn renewal_lines_include_positive_discounts_only() {
    let plan = sample_plan(100);
    let sub = sample_subscription(SubscriptionStatus::Active);
    let discounts = vec![
        RenewalDiscount { discount_type: DiscountType::Percentage, discount_value: Dec::from_int(10), coupon_code: "TEN".to_string() },
        RenewalDiscount { discount_type: DiscountType::FixedAmount, discount_value: Dec::zero(), coupon_code: "ZERO".to_string() },
        RenewalDiscount { discount_type: DiscountType::FixedAmount, discount_value: Dec::from_int(500), coupon_code: "BIG".to_string() },
    ];
    let lines: Vec<InvoiceItemDraft> = renewal_line_items(&plan, &sub, 1, &Dec::from_int(100), FEB_1_2026 + 1, &discounts).expect("lines");
    assert_eq!(lines.len(), 3);
    assert_eq!(lines[0].description, "Starter (Monthly)");
    assert_eq!(lines[0].period_start, Some(FEB_1_2026));
    assert_eq!(lines[1].description, "Discount (TEN)");
    assert_eq!(lines[1].amount.to_text(), "-10");
    assert_eq!(lines[2].description, "Discount (BIG)");
    assert_eq!(lines[2].amount.to_text(), "-100");
}

#[test]
fn tax_inclusive_total_is_subtotal() {
    assert_eq!(tax_total(&Dec::from_int(100), &Dec::new(750, 2), true).expect("t").to_text(), "100");
    assert_eq!(tax_total(&Dec::from_int(100), &Dec::new(750, 2), false).expect("t").to_text(), "107.50");
}

#[test]
fn credit_settles_renewal() {
    let s = renewal_settlement(&Dec::from_int(40), Some(Dec::from_int(100))).expect("s");
    assert_eq!(s.credits_applied.to_text(), "40");
    assert_eq!(s.final_amount_due.to_text(), "0");
    assert!(s.paid);
    let s = renewal_settlement(&Dec::from_int(40), Some(Dec::from_int(15))).expect("s");
    assert_eq!(s.final_amount_due.to_text(), "25");
    assert!(!s.paid);
    let s = renewal_settlement(&Dec::from_int(40), None).expect("s");
    assert_eq!(s.final_amount_due.to_text(), "40");
}

#[test]
fn charge_only_when_due_and_unpaid() {
    assert!(renewal_charge_due(&Dec::from_int(5), InvoiceStatus::Issued));
    assert!(!renewal_charge_due(&Dec::from_int(5), InvoiceStatus::Paid));
    assert!(!renewal_charge_due(&Dec::zero(), InvoiceStatus::Issued));
}

#[test]
fn charge_results_lead_to_follow_ups() {
    assert!(matches!(charge_follow_up(ChargeResult::Success { provider_reference: Some("pi".to_string()) }), ChargeFollowUp::Settle(Some(r)) if r == "pi"));
    assert!(matches!(charge_follow_up(ChargeResult::PermanentFailure("x".to_string())), ChargeFollowUp::MarkMethodFailed));
    assert!(matches!(charge_follow_up(ChargeResult::TransientFailure("x".to_string())), ChargeFollowUp::Nothing));
}

#[test]
fn settlement_payment_records_provider_reference() {
    let inv = sample_invoice(InvoiceStatus::Issued, 30);
    let pm = sample_method(PaymentProvider::Xendit);
    let p = auto_charge_payment(&inv, &pm, &Some("x_1".to_string()), 99).expect("payment");
    assert_eq!(p.reference, "auto-charge:xendit:pm_1");
    assert_eq!(p.method, PaymentMethod::Xendit);
    assert_eq!(p.xendit_payment_id.as_deref(), Some("x_1"));
    assert_eq!(p.stripe_payment_intent_id, None);
    assert_eq!(p.amount.to_text(), "30");
    let paid = sample_invoice(InvoiceStatus::Paid, 30);
    assert!(auto_charge_payment(&paid, &pm, &None, 99).is_none());
    assert_eq!(provider_name(&PaymentProvider::Lemonsqueezy), "lemonsqueezy");
}

#[test]
fn usage_quantity_reads_whole_totals_only() {
    let sub = sample_subscription(SubscriptionStatus::Active);
    let mut plan = sample_plan(1);
    plan.pricing_model = PricingModel::UsageBased;
    assert_eq!(compute_quantity(&sub, &plan, &Dec::from_int(12)), 12);
    assert_eq!(compute_quantity(&sub, &plan, &Dec::new(125, 1)), 0);
    assert_eq!(compute_quantity(&sub, &plan, &Dec::from_int(-3)), 0);
    plan.pricing_model = PricingModel::Flat;
    assert_eq!(compute_quantity(&sub, &plan, &Dec::from_int(12)), 1);
}

#[test]
fn renewals_count_invoices_and_keep_failures() {
    let mut other = sample_subscription(SubscriptionStatus::Active);
    other.id = "sub_2".to_string();
    let mut repo = StubRepo {
        plan: Some(sample_plan(25)),
        renewable: vec![sample_subscription(SubscriptionStatus::Active), other],
        fail_renewal_for: Some("sub_2".to_string()),
        ..StubRepo::default()
    };
    let (renewed, invoiced, errors) = renew_active_subscriptions(&mut repo, FEB_1_2026).expect("run");
    assert_eq!(renewed, 1);
    assert_eq!(invoiced, 1);
    assert_eq!(errors, vec!["sub sub_2: db down".to_string()]);
    assert_eq!(repo.advanced.borrow()[0], ("sub_1".to_string(), 0));
    {
        let events = repo.emitted_events.borrow();
        assert_eq!(events.len(), 1);
        assert_eq!(events[0].event_type, "subscription.renewed");
    }
    let res: LifecycleResult = run_full_lifecycle(&mut repo, FEB_1_2026).expect("full");
    assert_eq!(res.invoices_generated, res.renewed);
}

#[test]
fn subscription_state_changes() {
    let mut trial = sample_subscription(SubscriptionStatus::Trialing);
    trial.trial_end = Some(JAN_1_2026);
    assert!(trial_expired(&trial, JAN_1_2026));
    assert!(!trial_expired(&trial, JAN_1_2026 - 1));
    let active = converted_trial(&trial, JAN_1_2026, FEB_1_2026);
    assert_eq!(active.status, SubscriptionStatus::Active);
    assert_eq!((active.current_period_start, active.current_period_end, active.version), (JAN_1_2026, FEB_1_2026, 3));

    let mut leaving = sample_subscription(SubscriptionStatus::Active);
    leaving.cancel_at_period_end = true;
    assert!(cancellation_due(&leaving, FEB_1_2026));
    assert!(!renewable(&leaving, FEB_1_2026));
    let gone = canceled_subscription(&leaving, FEB_1_2026);
    assert_eq!((gone.status, gone.canceled_at), (SubscriptionStatus::Canceled, Some(FEB_1_2026)));

    let mut sub = sample_subscription(SubscriptionStatus::Active);
    assert!(renewable(&sub, FEB_1_2026));
    assert!(pre_generatable(&sub, JAN_1_2026, FEB_1_2026));
    sub.managed_by = Some("stripe".to_string());
    assert!(!renewable(&sub, FEB_1_2026));
    sub.managed_by = Some(String::new());
    assert!(renewable(&sub, FEB_1_2026));
    let next = advanced_subscription(&sub, 1_772_323_200);
    assert_eq!((next.current_period_start, next.current_period_end), (FEB_1_2026, 1_772_323_200));
    assert_eq!(renewal_due_at(0), 30 * 86_400);
}

#[test]
fn renewal_totals_apply_tax_and_credit() {
    let plan = sample_plan(100);
    let sub = sample_subscription(SubscriptionStatus::Active);
    let discounts = vec![RenewalDiscount { discount_type: DiscountType::Percentage, discount_value: Dec::from_int(10), coupon_code: "TEN".to_string() }];
    let lines = renewal_line_items(&plan, &sub, 1, &Dec::from_int(100), FEB_1_2026, &discounts).expect("lines");
    let t = renewal_totals(&lines, &Dec::new(900, 2), false, Some(Dec::from_int(50))).expect("totals");
    assert_eq!(t.subtotal.to_text(), "90");
    assert_eq!(t.total.to_text(), "99.00");
    assert_eq!(t.credits_applied.to_text(), "50");
    assert_eq!(t.final_amount_due.to_text(), "49.00");
    assert!(!t.paid);
    let t = renewal_totals(&lines, &Dec::new(900, 2), true, Some(Dec::from_int(500))).expect("totals");
    assert_eq!(t.total.to_text(), "90");
    assert!(t.paid);
}

#[test]
fn renewal_totals_report_an_overflowing_total() {
    let max = Dec::from_parts(79_228_162_514_264_337_593_543_950_335, 0).expect("max");
    let line = InvoiceItemDraft {
        description: "Plan".to_string(),
        quantity: Dec::from_int(1),
        unit_price: max,
        amount: max,
        period_start: None,
        period_end: None,
    };
    assert!(renewal_totals(&vec![line.clone()], &Dec::from_int(0), true, None).is_some());
    assert!(renewal_totals(&vec![line.clone()], &Dec::from_int(1), false, None).is_none());
    assert!(renewal_totals(&vec![line.clone(), line], &Dec::from_int(0), true, None).is_none());
}

#[test]
fn pending_invoices_are_generated_without_advancing_periods() {
    let mut other = sample_subscription(SubscriptionStatus::Active);
    other.id = "sub_2".to_string();
    let mut repo = StubRepo {
        plan: Some(sample_plan(25)),
        renewable: vec![sample_subscription(SubscriptionStatus::Active), other],
        fail_renewal_for: Some("sub_2".to_string()),
        ..StubRepo::default()
    };
    let made = generate_pending_invoices(&mut repo, FEB_1_2026).expect("generate");
    assert_eq!(made, 1);
    assert!(repo.advanced.borrow().is_empty());
}

#[test]
fn renewal_records_its_invoice_number() {
    let mut repo = StubRepo { plan: Some(sample_plan(25)), ..StubRepo::default() };
    renew_single_subscription(&mut repo, &sample_subscription(SubscriptionStatus::Active), FEB_1_2026).expect("renew");
    let events = repo.emitted_events.borrow();
    assert_eq!(events.len(), 1);
    assert_eq!(events[0].event_type, "subscription.renewed");
    assert!(matches!(&events[0].metadata[0].value, MetadataValue::Text(t) if t == "INV-00000001"));
}

#[test]
fn renewing_with_a_paid_existing_invoice_charges_nothing() {
    let mut repo = StubRepo {
        plan: Some(sample_plan(25)),
        existing: Some(sample_invoice(InvoiceStatus::Paid, 25)),
        method: Some(sample_method(PaymentProvider::Stripe)),
        ..StubRepo::default()
    };
    renew_single_subscription(&mut repo, &sample_subscription(SubscriptionStatus::Active), FEB_1_2026).expect("renew");
    assert!(repo.charges.borrow().is_empty());
    assert_eq!(repo.advanced.borrow().len(), 1);
    assert_eq!(repo.emitted_events.borrow().len(), 1);
}

#[test]
fn renewing_with_an_unpaid_existing_invoice_charges_once() {
    let mut repo = StubRepo {
        plan: Some(sample_plan(25)),
        existing: Some(sample_invoice(InvoiceStatus::Issued, 25)),
        method: Some(sample_method(PaymentProvider::Stripe)),
        ..StubRepo::default()
    };
    renew_single_subscription(&mut repo, &sample_subscription(SubscriptionStatus::Active), FEB_1_2026).expect("renew");
    assert_eq!(*repo.charges.borrow(), vec!["inv_1".to_string()]);
}

#[test]
fn unchanged_mrr_records_no_event() {
    let mut repo = StubRepo { plan: Some(sample_plan(25)), ..StubRepo::default() };
    let before = sample_subscription(SubscriptionStatus::Active);
    let mut after = sample_subscription(SubscriptionStatus::Active);
    after.version = 3;
    emit_mrr_change_event(&mut repo, &before, &after, "test_trigger");
    assert!(repo.emitted_events.borrow().is_empty());
}
