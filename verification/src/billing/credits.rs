//! Customer credit: a per-customer, per-currency balance that manual adjustments and
//! deposits move, and that invoices draw on.
use vstd::prelude::*;
use crate::error::{bad_request, is_refusal, BillingError};
use crate::models::{CreditReason, CustomerCredit};
use crate::money::{exact_add, exact_sub, spec_add, spec_sub, Dec};

verus! {

#[derive(Clone, Debug)]
pub struct CreditBalanceRequest {
    pub customer_id: String,
    pub currency: String,
}

#[derive(Clone, Debug)]
pub struct ListCreditsRequest {
    pub customer_id: String,
    pub currency: Option<String>,
}

#[derive(Clone, Debug)]
pub struct CreditAdjustmentRequest {
    pub customer_id: String,
    pub currency: String,
    pub amount: Dec,
    pub reason: CreditReason,
    pub description: String,
    pub invoice_id: Option<String>,
}

#[derive(Clone, Debug)]
pub struct ApplyCreditRequest {
    pub customer_id: String,
    pub invoice_id: String,
    pub currency: String,
    pub max_amount: Dec,
}

/// Storage of balances and of the credit ledger.
pub trait CreditsRepository: Sized {
    /// Holds of each answer the store gives when asked for the stored balance of `req`; a
    /// store that does not describe its answers admits every answer (so for each relation
    /// below).
    closed spec fn get_balance_answer(&self, req: CreditBalanceRequest, answer: Result<Option<Dec>, BillingError>) -> bool {
        true
    }

    /// Holds of each answer to listing the ledger entries of `req`.
    closed spec fn list_credits_answer(&self, req: ListCreditsRequest, answer: Result<Vec<CustomerCredit>, BillingError>) -> bool {
        true
    }

    /// Holds of each answer to drawing credit for an invoice as `req` asks (the amount
    /// drawn).
    closed spec fn apply_credit_to_invoice_answer(&self, req: ApplyCreditRequest, answer: Result<Dec, BillingError>) -> bool {
        true
    }

    fn get_balance(&self, req: &CreditBalanceRequest) -> (r: Result<Option<Dec>, BillingError>)
        ensures
            self.get_balance_answer(*req, r),
    ;

    fn list_credits(&self, req: &ListCreditsRequest) -> (r: Result<Vec<CustomerCredit>, BillingError>)
        ensures
            self.list_credits_answer(*req, r),
    ;

    /// The store after recording the adjustment `req`, with that answer; a store that does
    /// not describe its state keeps the same value (so for each `after_` function below).
    closed spec fn after_adjust_credit(&self, req: CreditAdjustmentRequest, answer: Result<CustomerCredit, BillingError>) -> Self {
        *self
    }

    /// The store after recording the deposit `req`.
    closed spec fn after_deposit_credit(&self, req: CreditAdjustmentRequest, answer: Result<CustomerCredit, BillingError>) -> Self {
        *self
    }

    /// The store after drawing credit for an invoice as `req` asks.
    closed spec fn after_apply_credit_to_invoice(&self, req: ApplyCreditRequest, answer: Result<Dec, BillingError>) -> Self {
        *self
    }

    /// Holds of each answer to recording the adjustment `req` in the ledger.
    closed spec fn adjust_credit_answer(&self, req: CreditAdjustmentRequest, answer: Result<CustomerCredit, BillingError>) -> bool {
        true
    }

    /// Holds of each answer to recording the deposit `req` in the ledger.
    closed spec fn deposit_credit_answer(&self, req: CreditAdjustmentRequest, answer: Result<CustomerCredit, BillingError>) -> bool {
        true
    }

    fn adjust_credit(&mut self, req: &CreditAdjustmentRequest) -> (r: Result<CustomerCredit, BillingError>)
        ensures
            old(self).adjust_credit_answer(*req, r),
            *final(self) == old(self).after_adjust_credit(*req, r),
    ;

    fn deposit_credit(&mut self, req: &CreditAdjustmentRequest) -> (r: Result<CustomerCredit, BillingError>)
        ensures
            old(self).deposit_credit_answer(*req, r),
            *final(self) == old(self).after_deposit_credit(*req, r),
    ;

    fn apply_credit_to_invoice(&mut self, req: &ApplyCreditRequest) -> (r: Result<Dec, BillingError>)
        ensures
            old(self).apply_credit_to_invoice_answer(*req, r),
            *final(self) == old(self).after_apply_credit_to_invoice(*req, r),
    ;
}

/// A stored balance, zero where none is stored yet.
pub open spec fn stored_or_zero(b: Option<Dec>) -> Dec {
    match b {
        Some(x) => x,
        None => Dec { mantissa: 0, scale: 0 },
    }
}

/// The balance of a customer in a currency; zero where none is stored.
pub fn get_balance<R: CreditsRepository>(repo: &R, req: CreditBalanceRequest) -> (r: Result<
    Dec,
    BillingError,
>)
    ensures
        exists|answer: Result<Option<Dec>, BillingError>|
            #[trigger] repo.get_balance_answer(req, answer) && match answer {
                Ok(b) => r == Ok::<Dec, BillingError>(stored_or_zero(b)),
                Err(e) => r == Err::<Dec, BillingError>(e),
            },
{
    match repo.get_balance(&req)? {
        Some(b) => Ok(b),
        None => Ok(Dec::zero()),
    }
}

pub fn list_credits<R: CreditsRepository>(repo: &R, req: ListCreditsRequest) -> (r: Result<
    Vec<CustomerCredit>,
    BillingError,
>)
    ensures
        repo.list_credits_answer(req, r),
{
    repo.list_credits(&req)
}

/// A manual adjustment; a zero amount is refused before storage is touched.
pub fn adjust<R: CreditsRepository>(repo: &mut R, req: CreditAdjustmentRequest) -> (r: Result<
    CustomerCredit,
    BillingError,
>)
    requires
        req.amount.wf(),
    ensures
        req.amount.mantissa == 0 ==> (r matches Err(BillingError::BadRequest(m)) && m@
            == "adjust amount must be non-zero"@) && *final(repo) == *old(repo),
        req.amount.mantissa != 0 ==> old(repo).adjust_credit_answer(req, r) && *final(repo) == old(
            repo,
        ).after_adjust_credit(req, r),
{
    if req.amount.is_zero() {
        return Err(bad_request("adjust amount must be non-zero"));
    }
    repo.adjust_credit(&req)
}

/// A deposit is an adjustment.
pub fn deposit<R: CreditsRepository>(repo: &mut R, req: CreditAdjustmentRequest) -> (r: Result<
    CustomerCredit,
    BillingError,
>)
    requires
        req.amount.wf(),
    ensures
        req.amount.mantissa == 0 ==> (r matches Err(BillingError::BadRequest(m)) && m@
            == "adjust amount must be non-zero"@) && *final(repo) == *old(repo),
        req.amount.mantissa != 0 ==> old(repo).adjust_credit_answer(req, r) && *final(repo) == old(
            repo,
        ).after_adjust_credit(req, r),
{
    adjust(repo, req)
}

pub fn adjust_in_tx<R: CreditsRepository>(repo: &mut R, req: CreditAdjustmentRequest) -> (r:
    Result<CustomerCredit, BillingError>)
    requires
        req.amount.wf(),
    ensures
        req.amount.mantissa == 0 ==> (r matches Err(BillingError::BadRequest(m)) && m@
            == "adjust amount must be non-zero"@) && *final(repo) == *old(repo),
        req.amount.mantissa != 0 ==> old(repo).adjust_credit_answer(req, r) && *final(repo) == old(
            repo,
        ).after_adjust_credit(req, r),
{
    adjust(repo, req)
}

/// A deposit inside a transaction: only positive amounts are accepted.
pub fn deposit_in_tx<R: CreditsRepository>(repo: &mut R, req: CreditAdjustmentRequest) -> (r:
    Result<CustomerCredit, BillingError>)
    requires
        req.amount.wf(),
    ensures
        req.amount.val() <= 0 ==> (r matches Err(BillingError::BadRequest(m)) && m@
            == "deposit amount must be positive"@) && *final(repo) == *old(repo),
        req.amount.val() > 0 ==> old(repo).deposit_credit_answer(req, r) && *final(repo) == old(
            repo,
        ).after_deposit_credit(req, r),
{
    if !req.amount.is_positive() {
        return Err(bad_request("deposit amount must be positive"));
    }
    repo.deposit_credit(&req)
}

/// Applies credit to an invoice, up to `max_amount`; nothing is applied when the cap is
/// not positive.
pub fn apply_to_invoice<R: CreditsRepository>(repo: &mut R, req: ApplyCreditRequest) -> (r: Result<
    Dec,
    BillingError,
>)
    requires
        req.max_amount.wf(),
    ensures
        req.max_amount.val() <= 0 ==> r == Ok::<Dec, BillingError>(Dec { mantissa: 0, scale: 0 })
            && *final(repo) == *old(repo),
        req.max_amount.val() > 0 ==> old(repo).apply_credit_to_invoice_answer(req, r) && *final(repo)
            == old(repo).after_apply_credit_to_invoice(req, r),
{
    if !req.max_amount.is_positive() {
        return Ok(Dec::zero());
    }
    repo.apply_credit_to_invoice(&req)
}

/// What drawing credit for an invoice records: the amount drawn, the balance left, and
/// the ledger row of the draw.
#[derive(Clone, Debug)]
pub struct CreditDraw {
    pub applied: Dec,
    pub remaining: Dec,
    pub entry: CreditAdjustmentRequest,
}

/// The draw of credit for an invoice on the stored balance `current`: nothing when
/// `credit_to_apply` draws nothing; otherwise the amount drawn, the balance left after
/// it, and a manual ledger row of minus the amount for the invoice.
pub fn credit_draw(req: &ApplyCreditRequest, current: Option<Dec>) -> (r: Result<Option<CreditDraw>, BillingError>)
    requires
        req.max_amount.wf(),
        current matches Some(c) ==> c.wf(),
    ensures
        spec_credit_to_apply(req.max_amount, current).val() == 0 ==> r == Ok::<Option<CreditDraw>, BillingError>(None),
        spec_credit_to_apply(req.max_amount, current).val() != 0 ==> match spec_sub(
            stored_or_zero(current),
            spec_credit_to_apply(req.max_amount, current),
        ) {
            None => r matches Err(BillingError::Internal(_)),
            Some(rem) => r matches Ok(Some(d)) && {
                let applied = spec_credit_to_apply(req.max_amount, current);
                &&& d.applied == applied
                &&& d.remaining == rem
                &&& exact_sub(stored_or_zero(current), applied) is Some ==> d.remaining.val()
                    == stored_or_zero(current).val() - applied.val() && d.remaining.val() >= 0
                &&& d.entry.customer_id == req.customer_id
                &&& d.entry.currency == req.currency
                &&& d.entry.amount.val() == -applied.val()
                &&& d.entry.reason == CreditReason::Manual
                &&& d.entry.description@ == "Credit applied to invoice"@
                &&& d.entry.invoice_id == Some(req.invoice_id)
            },
        },
{
    let applied = credit_to_apply(&req.max_amount, current);
    if applied.is_zero() {
        return Ok(None);
    }
    let balance = or_zero(current);
    proof {
        crate::money::lemma_sub_val(balance, applied);
        crate::money::lemma_neg_val(applied);
    }
    let remaining = match balance.checked_sub(&applied) {
        Some(x) => x,
        None => {
            return Err(crate::error::overflow());
        },
    };
    let entry = CreditAdjustmentRequest {
        customer_id: req.customer_id.clone(),
        currency: req.currency.clone(),
        amount: applied.neg(),
        reason: CreditReason::Manual,
        description: crate::error::owned("Credit applied to invoice"),
        invoice_id: Some(req.invoice_id.clone()),
    };
    Ok(Some(CreditDraw { applied, remaining, entry }))
}

/// The balance after a manual adjustment of `amount` on the stored balance: refused for a
/// zero amount, and refused when the balance would fall below zero.
pub open spec fn spec_adjusted_balance(current: Option<Dec>, amount: Dec) -> Result<Dec, Option<Seq<char>>> {
    if amount.mantissa == 0 {
        Err(Some("adjust amount must be non-zero"@))
    } else {
        match spec_add(stored_or_zero(current), amount) {
            Some(next) => if next.val() < 0 {
                Err(Some("adjustment would result in negative credit balance"@))
            } else {
                Ok(next)
            },
            None => Err(None),
        }
    }
}

fn or_zero(current: Option<Dec>) -> (r: Dec)
    requires
        current matches Some(c) ==> c.wf(),
    ensures
        r == stored_or_zero(current),
        r.wf(),
{
    match current {
        Some(c) => c,
        None => Dec::zero(),
    }
}

/// The balance a manual adjustment leaves.
pub fn adjusted_balance(current: Option<Dec>, amount: &Dec) -> (r: Result<Dec, BillingError>)
    requires
        current matches Some(c) ==> c.wf(),
        amount.wf(),
    ensures
        match spec_adjusted_balance(current, *amount) {
            Ok(b) => r == Ok::<Dec, BillingError>(b),
            Err(m) => (r matches Err(e) && is_refusal(e, m)),
        },
        r matches Ok(b) ==> b.wf() && b.val() >= 0,
        r matches Ok(b) ==> (exact_add(stored_or_zero(current), *amount) is Some ==> b.val()
            == stored_or_zero(current).val() + amount.val()),
{
    if amount.is_zero() {
        return Err(bad_request("adjust amount must be non-zero"));
    }
    let base = or_zero(current);
    match base.checked_add(amount) {
        Some(next) => {
            if next.is_negative() {
                Err(bad_request("adjustment would result in negative credit balance"))
            } else {
                Ok(next)
            }
        },
        None => Err(crate::error::overflow()),
    }
}

/// The balance a deposit leaves: only positive amounts are accepted.
pub open spec fn spec_deposited_balance(current: Option<Dec>, amount: Dec) -> Result<Dec, Option<Seq<char>>> {
    if amount.val() <= 0 {
        Err(Some("deposit amount must be positive"@))
    } else {
        match spec_add(stored_or_zero(current), amount) {
            Some(next) => Ok(next),
            None => Err(None),
        }
    }
}

pub fn deposited_balance(current: Option<Dec>, amount: &Dec) -> (r: Result<Dec, BillingError>)
    requires
        current matches Some(c) ==> c.wf(),
        amount.wf(),
    ensures
        match spec_deposited_balance(current, *amount) {
            Ok(b) => r == Ok::<Dec, BillingError>(b),
            Err(m) => (r matches Err(e) && is_refusal(e, m)),
        },
        r matches Ok(b) ==> b.wf() && (exact_add(stored_or_zero(current), *amount) is Some ==> b.val()
            == stored_or_zero(current).val() + amount.val() && (stored_or_zero(current).val() >= 0
            ==> b.val() > 0)),
{
    if !amount.is_positive() {
        return Err(bad_request("deposit amount must be positive"));
    }
    let base = or_zero(current);
    match base.checked_add(amount) {
        Some(next) => Ok(next),
        None => Err(crate::error::overflow()),
    }
}

/// How much credit an invoice draws: nothing when the cap or the balance is not
/// positive, else the smaller of the two.
pub open spec fn spec_credit_to_apply(max_amount: Dec, current: Option<Dec>) -> Dec {
    let balance = stored_or_zero(current);
    if max_amount.val() <= 0 || balance.val() <= 0 {
        Dec { mantissa: 0, scale: 0 }
    } else if balance.val() < max_amount.val() {
        balance
    } else {
        max_amount
    }
}

pub fn credit_to_apply(max_amount: &Dec, current: Option<Dec>) -> (r: Dec)
    requires
        max_amount.wf(),
        current matches Some(c) ==> c.wf(),
    ensures
        r == spec_credit_to_apply(*max_amount, current),
        r.wf(),
        0 <= r.val(),
        max_amount.val() > 0 ==> r.val() <= max_amount.val(),
        r.val() <= stored_or_zero(current).val() || r.val() == 0,
{
    if !max_amount.is_positive() {
        return Dec::zero();
    }
    let balance = or_zero(current);
    if !balance.is_positive() {
        return Dec::zero();
    }
    if balance.lt(max_amount) {
        balance
    } else {
        *max_amount
    }
}

/// The balance left after drawing `applied` from it.
pub fn balance_after_apply(balance: &Dec, applied: &Dec) -> (r: Dec)
    requires
        balance.wf(),
        applied.wf(),
        0 <= applied.val() <= balance.val(),
        exact_sub(*balance, *applied) is Some,
    ensures
        r.wf(),
        r.val() == balance.val() - applied.val(),
        r.val() >= 0,
{
    proof {
        crate::money::lemma_sub_val(*balance, *applied);
    }
    match balance.checked_sub(applied) {
        Some(x) => x,
        None => Dec::zero(),
    }
}

/// A credit balance never goes below zero: an accepted adjustment leaves a
/// non-negative balance, a deposit onto a non-negative balance leaves one, and drawing
/// credit for an invoice never takes more than the balance holds.
pub proof fn lemma_balance_never_negative(current: Option<Dec>, amount: Dec, max_amount: Dec)
    requires
        current matches Some(c) ==> c.wf() && c.val() >= 0,
        amount.wf(),
        max_amount.wf(),
    ensures
        spec_adjusted_balance(current, amount) matches Ok(b) ==> b.val() >= 0,
        amount.val() > 0 ==> (exact_add(stored_or_zero(current), amount) matches Some(b) ==> b.val() > 0),
        spec_credit_to_apply(max_amount, current).val() <= stored_or_zero(current).val(),
        spec_credit_to_apply(max_amount, current).val() >= 0,
{
    let z = Dec { mantissa: 0, scale: 0 };
    assert(z.val() == 0);
    let bal = stored_or_zero(current);
    crate::money::lemma_add_val(bal, amount);
    crate::money::lemma_val_sign(max_amount);
    crate::money::lemma_val_sign(bal);
}

/// Drawing credit twice, the second time from what the first left, never takes more than
/// the balance held: the two draws together are at most the first balance, and what is
/// left after both is never below zero.
pub proof fn lemma_successive_draws_within_balance(first_max: Dec, second_max: Dec, current: Option<Dec>, remaining: Dec)
    requires
        first_max.wf(),
        second_max.wf(),
        current matches Some(c) ==> c.wf() && c.val() >= 0,
        remaining.wf(),
        remaining.val() == stored_or_zero(current).val() - spec_credit_to_apply(first_max, current).val(),
    ensures
        ({
            let a1 = spec_credit_to_apply(first_max, current);
            let a2 = spec_credit_to_apply(second_max, Some(remaining));
            &&& 0 <= a1.val() + a2.val() <= stored_or_zero(current).val()
            &&& remaining.val() - a2.val() >= 0
        }),
{
    let z = Dec { mantissa: 0, scale: 0 };
    assert(z.val() == 0);
    crate::money::lemma_val_sign(first_max);
    crate::money::lemma_val_sign(second_max);
    crate::money::lemma_val_sign(stored_or_zero(current));
    crate::money::lemma_val_sign(remaining);
}

/// Drawing credit for an invoice takes nothing negative, never more than the invoice's
/// total nor more than the balance holds, so what remains due is never below zero.
pub proof fn lemma_apply_within_bounds(total: Dec, current: Option<Dec>)
    requires
        total.wf(),
        current matches Some(c) ==> c.wf(),
        total.val() >= 0,
    ensures
        ({
            let applied = spec_credit_to_apply(total, current);
            &&& 0 <= applied.val() <= total.val()
            &&& applied.val() <= stored_or_zero(current).val() || applied.val() == 0
            &&& total.val() - applied.val() >= 0
        }),
{
    let z = Dec { mantissa: 0, scale: 0 };
    assert(z.val() == 0);
}

} // verus!
