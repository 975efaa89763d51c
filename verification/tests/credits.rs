use std::cell::RefCell;

use rustbill_core::billing::credits::credit_draw;
use rustbill_core::billing::credits::{
    adjust, adjusted_balance, apply_to_invoice, balance_after_apply, credit_to_apply, deposit,
    deposit_in_tx, deposited_balance, get_balance, list_credits, ApplyCreditRequest,
    CreditAdjustmentRequest, CreditBalanceRequest, CreditsRepository, ListCreditsRequest,
};
use rustbill_core::error::BillingError;
use rustbill_core::models::{CreditReason, CustomerCredit};
use rustbill_core::money::Dec;

#[derive(Default)]
struct StubRepo {
    balance: Option<Dec>,
    credits: Vec<CustomerCredit>,
    adjusted: RefCell<Option<CreditAdjustmentRequest>>,
    deposited: RefCell<Option<CreditAdjustmentRequest>>,
    applied: RefCell<Option<ApplyCreditRequest>>,
    applied_amount: Option<Dec>,
}

fn sample_credit(amount: Dec) -> CustomerCredit {
    CustomerCredit {
        id: "cred_1".to_string(),
        customer_id: "cust_1".to_string(),
        currency: "USD".to_string(),
        amount,
        balance_after: Dec::from_int(100),
        reason: CreditReason::Manual,
        description: "test".to_string(),
        invoice_id: None,
    }
}

impl CreditsRepository for StubRepo {
    fn get_balance(&self, _req: &CreditBalanceRequest) -> Result<Option<Dec>, BillingError> {
        Ok(self.balance)
    }
    fn list_credits(&self, _req: &ListCreditsRequest) -> Result<Vec<CustomerCredit>, BillingError> {
        Ok(self.credits.clone())
    }
    fn adjust_credit(&mut self, req: &CreditAdjustmentRequest) -> Result<CustomerCredit, BillingError> {
        *self.adjusted.borrow_mut() = Some(req.clone());
        Ok(sample_credit(req.amount))
    }
    fn deposit_credit(&mut self, req: &CreditAdjustmentRequest) -> Result<CustomerCredit, BillingError> {
        *self.deposited.borrow_mut() = Some(req.clone());
        Ok(sample_credit(req.amount))
    }
    fn apply_credit_to_invoice(&mut self, req: &ApplyCreditRequest) -> Result<Dec, BillingError> {
        *self.applied.borrow_mut() = Some(req.clone());
        Ok(self.applied_amount.unwrap_or_else(Dec::zero))
    }
}

fn adjustment(amount: Dec, description: &str) -> CreditAdjustmentRequest {
    CreditAdjustmentRequest {
        customer_id: "cust_1".to_string(),
        currency: "USD".to_string(),
        amount,
        reason: CreditReason::Manual,
        description: description.to_string(),
        invoice_id: Some("inv_1".to_string()),
    }
}

#[test]
fn get_balance_defaults_to_zero() {
    let repo = StubRepo::default();
    let b = get_balance(&repo, CreditBalanceRequest { customer_id: "cust_1".to_string(), currency: "USD".to_string() }).expect("get_balance");
    assert!(b.is_zero());
}

#[test]
fn adjust_rejects_zero_amount() {
    let mut repo = StubRepo::default();
    let err = adjust(&mut repo, adjustment(Dec::zero(), "test")).expect_err("should fail");
    assert!(matches!(err, BillingError::BadRequest(m) if m.contains("non-zero")));
    assert!(repo.adjusted.borrow().is_none());
}

#[test]
fn deposit_aliases_adjust_and_list_forwards_to_repository() {
    let mut repo = StubRepo { balance: Some(Dec::from_int(25)), credits: vec![sample_credit(Dec::from_int(10))], ..StubRepo::default() };
    let credit = deposit(&mut repo, adjustment(Dec::from_int(10), "deposit")).expect("deposit");
    assert_eq!(credit.id, "cred_1");
    let listed = list_credits(&repo, ListCreditsRequest { customer_id: "cust_1".to_string(), currency: Some("USD".to_string()) }).expect("list_credits");
    assert_eq!(listed.len(), 1);
    assert!(repo.adjusted.borrow().is_some());
    assert!(repo.deposited.borrow().is_none());
}

#[test]
fn deposit_in_tx_forwards_to_deposit_repository_method() {
    let mut repo = StubRepo::default();
    let credit = deposit_in_tx(&mut repo, adjustment(Dec::from_int(10), "deposit")).expect("deposit_in_tx");
    assert_eq!(credit.id, "cred_1");
    assert_eq!(repo.deposited.borrow().as_ref().expect("deposited").invoice_id.as_deref(), Some("inv_1"));
}

#[test]
fn deposit_in_tx_rejects_non_positive_amount() {
    let mut repo = StubRepo::default();
    let err = deposit_in_tx(&mut repo, adjustment(Dec::from_int(-1), "deposit")).expect_err("should fail");
    assert!(matches!(err, BillingError::BadRequest(m) if m.contains("positive")));
}

#[test]
fn apply_to_invoice_returns_zero_when_max_is_non_positive() {
    let mut repo = StubRepo { applied_amount: Some(Dec::from_int(99)), ..StubRepo::default() };
    let applied = apply_to_invoice(&mut repo, ApplyCreditRequest { customer_id: "cust_1".to_string(), invoice_id: "inv_1".to_string(), currency: "USD".to_string(), max_amount: Dec::zero() }).expect("apply_to_invoice");
    assert!(applied.is_zero());
    assert!(repo.applied.borrow().is_none());
}

#[test]
fn adjustments_never_go_negative() {
    let err = adjusted_balance(Some(Dec::from_int(10)), &Dec::from_int(-11)).expect_err("negative");
    assert!(matches!(err, BillingError::BadRequest(m) if m == "adjustment would result in negative credit balance"));
    assert!(adjusted_balance(Some(Dec::from_int(10)), &Dec::from_int(-10)).expect("ok").is_zero());
    assert_eq!(adjusted_balance(None, &Dec::new(550, 2)).expect("ok").to_text(), "5.50");
    assert_eq!(deposited_balance(Some(Dec::from_int(3)), &Dec::from_int(4)).expect("ok").to_text(), "7");
}

#[test]
fn credit_drawn_is_smaller_of_cap_and_balance() {
    assert_eq!(credit_to_apply(&Dec::from_int(40), Some(Dec::from_int(100))).to_text(), "40");
    assert_eq!(credit_to_apply(&Dec::from_int(40), Some(Dec::from_int(15))).to_text(), "15");
    assert!(credit_to_apply(&Dec::from_int(40), Some(Dec::from_int(-5))).is_zero());
    assert!(credit_to_apply(&Dec::from_int(40), None).is_zero());
    assert_eq!(balance_after_apply(&Dec::from_int(100), &Dec::from_int(40)).to_text(), "60");
}

#[test]
fn credit_draw_takes_the_smaller_amount_and_records_it() {
    let req = ApplyCreditRequest { customer_id: "cust_1".to_string(), invoice_id: "inv_1".to_string(), currency: "USD".to_string(), max_amount: Dec::from_int(40) };
    let draw = credit_draw(&req, Some(Dec::from_int(100))).expect("draw").expect("something drawn");
    assert_eq!(draw.applied.to_text(), "40");
    assert_eq!(draw.remaining.to_text(), "60");
    assert_eq!(draw.entry.amount.to_text(), "-40");
    assert_eq!(draw.entry.description, "Credit applied to invoice");
    assert_eq!(draw.entry.invoice_id.as_deref(), Some("inv_1"));
    assert!(credit_draw(&req, Some(Dec::zero())).expect("draw").is_none());
    assert!(credit_draw(&req, None).expect("draw").is_none());
}

#[test]
fn successive_draws_never_exceed_the_balance() {
    let req = ApplyCreditRequest { customer_id: "cust_1".to_string(), invoice_id: "inv_1".to_string(), currency: "USD".to_string(), max_amount: Dec::from_int(40) };
    let first = credit_draw(&req, Some(Dec::from_int(70))).expect("draw").expect("drawn");
    assert_eq!(first.applied.to_text(), "40");
    assert_eq!(first.remaining.to_text(), "30");
    let second = credit_draw(&req, Some(first.remaining)).expect("draw").expect("drawn");
    assert_eq!(second.applied.to_text(), "30");
    assert_eq!(second.remaining.to_text(), "0");
    assert!(credit_draw(&req, Some(second.remaining)).expect("draw").is_none());
}
