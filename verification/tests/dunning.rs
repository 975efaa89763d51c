use std::cell::RefCell;

use rustbill_core::billing::dunning::{
    determine_step, dunning_actions, list_dunning_log, plan_dunning, run_dunning, DunningConfig,
    DunningLogFilter, DunningRepository,
};
use rustbill_core::error::BillingError;
use rustbill_core::models::{DunningLogEntry, DunningStep, Invoice, InvoiceStatus};
use rustbill_core::money::Dec;

const NOW: i64 = 1_767_225_600;

fn sample_invoice(status: InvoiceStatus, days_past_due: i64) -> Invoice {
    Invoice {
        id: "inv_1".to_string(),
        invoice_number: "INV-00000001".to_string(),
        customer_id: "cus_1".to_string(),
        subscription_id: Some("sub_1".to_string()),
        status,
        issued_at: None,
        due_at: Some(NOW - days_past_due * 86_400),
        paid_at: None,
        subtotal: Dec::zero(),
        tax: Dec::zero(),
        total: Dec::zero(),
        currency: "USD".to_string(),
        notes: None,
        version: 1,
        credits_applied: Dec::zero(),
        amount_due: Dec::zero(),
        auto_charge_attempts: 0,
    }
}

#[derive(Default)]
struct StubRepo {
    logs: Vec<DunningLogEntry>,
    invoices: Vec<Invoice>,
    executed: RefCell<Vec<(String, DunningStep)>>,
    applied: RefCell<Vec<(String, DunningStep, i64)>>,
}

impl DunningRepository for StubRepo {
    fn list_dunning_log(&self, filter: &DunningLogFilter) -> Result<Vec<DunningLogEntry>, BillingError> {
        Ok(match &filter.invoice_id {
            Some(id) => self.logs.iter().filter(|e| &e.invoice_id == id).cloned().collect(),
            None => self.logs.clone(),
        })
    }
    fn list_overdue_invoices(&self, _now: i64) -> Result<Vec<Invoice>, BillingError> {
        Ok(self.invoices.clone())
    }
    fn has_executed_step(&self, invoice_id: &str, step: &DunningStep) -> Result<bool, BillingError> {
        Ok(self.executed.borrow().iter().any(|(id, s)| id == invoice_id && s == step))
    }
    fn execute_dunning_step(&mut self, invoice: &Invoice, step: DunningStep, _now: i64, days: i64) -> Result<(), BillingError> {
        self.applied.borrow_mut().push((invoice.id.clone(), step, days));
        self.executed.borrow_mut().push((invoice.id.clone(), step));
        Ok(())
    }
}

fn log(id: &str, invoice_id: &str) -> DunningLogEntry {
    DunningLogEntry {
        id: id.to_string(),
        invoice_id: invoice_id.to_string(),
        subscription_id: Some("sub_1".to_string()),
        step: DunningStep::Reminder,
        scheduled_at: NOW,
        executed_at: Some(NOW),
        notes: Some("note".to_string()),
    }
}

#[test]
fn list_dunning_log_filters_by_invoice() {
    let repo = StubRepo { logs: vec![log("log_1", "inv_1"), log("log_2", "inv_2")], ..StubRepo::default() };
    let rows = list_dunning_log(&repo, DunningLogFilter { invoice_id: Some("inv_1".to_string()) }).expect("list");
    assert_eq!(rows.len(), 1);
    assert_eq!(rows[0].id, "log_1");
}

#[test]
fn run_dunning_executes_matching_step() {
    let mut repo = StubRepo { invoices: vec![sample_invoice(InvoiceStatus::Issued, 8)], ..StubRepo::default() };
    let processed = run_dunning(&mut repo, &DunningConfig::default(), NOW).expect("run_dunning");
    assert_eq!(processed, 1);
    let applied = repo.applied.borrow();
    assert_eq!(applied.len(), 1);
    assert_eq!(applied[0].0, "inv_1");
    assert_eq!(applied[0].1, DunningStep::Warning);
    assert_eq!(applied[0].2, 8);
}

#[test]
fn run_dunning_skips_when_step_already_executed() {
    let mut repo = StubRepo { invoices: vec![sample_invoice(InvoiceStatus::Issued, 8)], ..StubRepo::default() };
    repo.executed.borrow_mut().push(("inv_1".to_string(), DunningStep::Warning));
    let processed = run_dunning(&mut repo, &DunningConfig::default(), NOW).expect("run_dunning");
    assert_eq!(processed, 0);
    assert!(repo.applied.borrow().is_empty());
}

#[test]
fn steps_by_days_overdue() {
    let c = DunningConfig::default();
    assert_eq!(c.reminder_days, 3);
    assert_eq!(determine_step(2, &c), None);
    assert_eq!(determine_step(3, &c), Some(DunningStep::Reminder));
    assert_eq!(determine_step(7, &c), Some(DunningStep::Warning));
    assert_eq!(determine_step(14, &c), Some(DunningStep::FinalNotice));
    assert_eq!(determine_step(30, &c), Some(DunningStep::Suspension));
    assert_eq!(determine_step(365, &c), Some(DunningStep::Suspension));
}

#[test]
fn plan_skips_undated_and_recent_invoices() {
    let mut undated = sample_invoice(InvoiceStatus::Issued, 0);
    undated.due_at = None;
    let invoices = vec![undated, sample_invoice(InvoiceStatus::Overdue, 1), sample_invoice(InvoiceStatus::Overdue, 31)];
    let plan = plan_dunning(&invoices, NOW, &DunningConfig::default());
    assert_eq!(plan.len(), 1);
    assert_eq!(plan[0].index, 2);
    assert_eq!(plan[0].step, DunningStep::Suspension);
    assert_eq!(plan[0].days_overdue, 31);
}

#[test]
fn suspension_pauses_subscription_and_logs_note() {
    let inv = sample_invoice(InvoiceStatus::Issued, 30);
    let a = dunning_actions(&inv, DunningStep::Suspension, NOW, 30);
    assert!(a.mark_overdue);
    assert_eq!(a.notes, "Auto-dunning: 30 days overdue");
    assert_eq!(a.pause_subscription.as_deref(), Some("sub_1"));
    let overdue = sample_invoice(InvoiceStatus::Overdue, 8);
    let a = dunning_actions(&overdue, DunningStep::Warning, NOW, 8);
    assert!(!a.mark_overdue);
    assert_eq!(a.pause_subscription, None);
}

#[test]
fn run_dunning_skips_when_a_later_step_was_taken() {
    let mut repo = StubRepo { invoices: vec![sample_invoice(InvoiceStatus::Issued, 8)], ..StubRepo::default() };
    repo.executed.borrow_mut().push(("inv_1".to_string(), DunningStep::Suspension));
    let processed = run_dunning(&mut repo, &DunningConfig::default(), NOW).expect("run_dunning");
    assert_eq!(processed, 0);
    assert!(repo.applied.borrow().is_empty());
}
