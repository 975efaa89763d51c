//! Charging a saved payment method for an invoice's amount due, and reading the
//! payment providers' answers.
use vstd::prelude::*;
use crate::error::{owned, BillingError};
use crate::models::{Invoice, PaymentProvider, SavedPaymentMethod};
use crate::money::{dec_hundred, spec_mul, spec_round_dp, Dec};
use crate::text::{extend_str, int_string, int_text, starts_with, string_of};

verus! {

#[derive(Clone, Debug)]
pub enum ChargeResult {
    Success { provider_reference: Option<String> },
    NoPaymentMethod,
    ManagedExternally,
    TransientFailure(String),
    PermanentFailure(String),
}

#[derive(Clone, Debug)]
pub struct AutoChargeContext {
    pub invoice: Invoice,
    pub payment_method: SavedPaymentMethod,
}

/// What charging an invoice needs from storage and from the providers.
pub trait AutoChargeRepository: Sized {
    /// Holds of each answer the store gives to counting a charge attempt on the invoice
    /// `invoice_id`; a store that does not describe its answers admits every answer (so
    /// for each relation below).
    closed spec fn increment_attempts_answer(&self, invoice_id: Seq<char>, answer: Result<(), BillingError>) -> bool {
        true
    }

    /// Holds of each answer Stripe gives to charging `amount` for `context`.
    closed spec fn stripe_charge_answer(&self, context: AutoChargeContext, amount: Dec, answer: Result<ChargeResult, BillingError>) -> bool {
        true
    }

    /// Holds of each answer Xendit gives to charging `amount` for `context`.
    closed spec fn xendit_charge_answer(&self, context: AutoChargeContext, amount: Dec, answer: Result<ChargeResult, BillingError>) -> bool {
        true
    }

    /// The store after counting a charge attempt on the invoice, with that answer; a store
    /// that does not describe its state keeps the same value (so for each `after_`
    /// function below).
    closed spec fn after_increment_attempts(&self, invoice_id: Seq<char>, answer: Result<(), BillingError>) -> Self {
        *self
    }

    /// The store after Stripe's charge of `amount` for `context`, with that answer.
    closed spec fn after_stripe_charge(&self, context: AutoChargeContext, amount: Dec, answer: Result<ChargeResult, BillingError>) -> Self {
        *self
    }

    /// The store after Xendit's charge of `amount` for `context`, with that answer.
    closed spec fn after_xendit_charge(&self, context: AutoChargeContext, amount: Dec, answer: Result<ChargeResult, BillingError>) -> Self {
        *self
    }

    fn increment_attempts(&mut self, invoice_id: &str) -> (r: Result<(), BillingError>)
        ensures
            old(self).increment_attempts_answer(invoice_id@, r),
            *final(self) == old(self).after_increment_attempts(invoice_id@, r),
    ;

    fn get_setting(&self, key: &str) -> Result<String, BillingError>;

    fn stripe_charge(&mut self, context: &AutoChargeContext, amount: Dec) -> (r: Result<
        ChargeResult,
        BillingError,
    >)
        ensures
            old(self).stripe_charge_answer(*context, amount, r),
            *final(self) == old(self).after_stripe_charge(*context, amount, r),
    ;

    fn xendit_charge(&mut self, context: &AutoChargeContext, amount: Dec) -> (r: Result<
        ChargeResult,
        BillingError,
    >)
        ensures
            old(self).xendit_charge_answer(*context, amount, r),
            *final(self) == old(self).after_xendit_charge(*context, amount, r),
    ;
}

/// What a charge of something due gives once its attempt is counted, from the store
/// `repo` to the store `fin`: Lemon Squeezy manages its own charges and a test token
/// decides the outcome, both without asking a provider; otherwise the method's provider
/// is asked once, for the amount due, and its answer is the result.
pub open spec fn routed_charge<R: AutoChargeRepository>(repo: R, context: AutoChargeContext, r: Result<ChargeResult, BillingError>, fin: R) -> bool {
    let provider = context.payment_method.provider;
    let token = context.payment_method.provider_token@;
    if provider == PaymentProvider::Lemonsqueezy {
        fin == repo && r matches Ok(ChargeResult::ManagedExternally)
    } else if is_success_token(token) {
        fin == repo && (r matches Ok(ChargeResult::Success { provider_reference: Some(p) }) && p@ == (if provider
            == PaymentProvider::Stripe {
            "pi_test_success"@
        } else {
            "xendit_test_success"@
        }))
    } else if is_decline_token(token) {
        fin == repo && (r matches Ok(ChargeResult::PermanentFailure(m)) && m@ == "simulated permanent decline"@)
    } else if provider == PaymentProvider::Stripe {
        repo.stripe_charge_answer(context, context.invoice.amount_due, r) && fin == repo.after_stripe_charge(
            context,
            context.invoice.amount_due,
            r,
        )
    } else {
        repo.xendit_charge_answer(context, context.invoice.amount_due, r) && fin == repo.after_xendit_charge(
            context,
            context.invoice.amount_due,
            r,
        )
    }
}

/// How a charge attempt proceeds once the attempt has been counted.
#[derive(Clone, Debug)]
pub enum ChargeRoute {
    /// The answer is known without asking a provider.
    Decided(ChargeResult),
    /// Ask Stripe for the amount.
    Stripe,
    /// Ask Xendit for the amount.
    Xendit,
}

pub open spec fn spec_has_prefix(s: Seq<char>, p: Seq<char>) -> bool {
    p.len() <= s.len() && s.subrange(0, p.len() as int) == p
}

/// Test tokens: `test_success...` always succeeds, `test_permanent...` always declines.
pub open spec fn is_success_token(t: Seq<char>) -> bool {
    spec_has_prefix(t, "test_success"@)
}

pub open spec fn is_decline_token(t: Seq<char>) -> bool {
    spec_has_prefix(t, "test_permanent"@)
}

/// The route of a charge for a provider and a saved token.
pub fn charge_route(provider: PaymentProvider, token: &str) -> (r: ChargeRoute)
    ensures
        provider == PaymentProvider::Lemonsqueezy ==> r matches ChargeRoute::Decided(
            ChargeResult::ManagedExternally,
        ),
        provider != PaymentProvider::Lemonsqueezy && is_success_token(token@) ==> (r matches ChargeRoute::Decided(
            ChargeResult::Success { provider_reference: Some(p) },
        ) && p@ == (if provider == PaymentProvider::Stripe {
            "pi_test_success"@
        } else {
            "xendit_test_success"@
        })),
        provider != PaymentProvider::Lemonsqueezy && !is_success_token(token@) && is_decline_token(
            token@,
        ) ==> (r matches ChargeRoute::Decided(ChargeResult::PermanentFailure(m)) && m@
            == "simulated permanent decline"@),
        provider == PaymentProvider::Stripe && !is_success_token(token@) && !is_decline_token(
            token@,
        ) ==> r is Stripe,
        provider == PaymentProvider::Xendit && !is_success_token(token@) && !is_decline_token(
            token@,
        ) ==> r is Xendit,
{
    match provider {
        PaymentProvider::Lemonsqueezy => ChargeRoute::Decided(ChargeResult::ManagedExternally),
        _ => {
            if starts_with(token, "test_success") {
                let reference = if provider == PaymentProvider::Stripe {
                    owned("pi_test_success")
                } else {
                    owned("xendit_test_success")
                };
                ChargeRoute::Decided(ChargeResult::Success { provider_reference: Some(reference) })
            } else if starts_with(token, "test_permanent") {
                ChargeRoute::Decided(
                    ChargeResult::PermanentFailure(owned("simulated permanent decline")),
                )
            } else if provider == PaymentProvider::Stripe {
                ChargeRoute::Stripe
            } else {
                ChargeRoute::Xendit
            }
        },
    }
}

/// Charges the invoice's amount due with the saved method. Nothing is due: success,
/// and no attempt is counted. Otherwise the attempt is counted first, then the
/// method's provider route decides (see `charge_route`).
pub fn try_auto_charge<R: AutoChargeRepository>(repo: &mut R, context: &AutoChargeContext) -> (r:
    Result<ChargeResult, BillingError>)
    requires
        context.invoice.amount_due.wf(),
    ensures
        context.invoice.amount_due.val() <= 0 ==> (r matches Ok(
            ChargeResult::Success { provider_reference: None },
        ) && *final(repo) == *old(repo)),
        context.invoice.amount_due.val() > 0 && context.payment_method.provider
            == PaymentProvider::Lemonsqueezy ==> (r is Ok ==> r matches Ok(
            ChargeResult::ManagedExternally,
        )),
        context.invoice.amount_due.val() > 0 && context.payment_method.provider
            != PaymentProvider::Lemonsqueezy && is_success_token(
            context.payment_method.provider_token@,
        ) ==> (r is Ok ==> r matches Ok(ChargeResult::Success { provider_reference: Some(_) })),
        context.invoice.amount_due.val() > 0 && context.payment_method.provider
            != PaymentProvider::Lemonsqueezy && !is_success_token(
            context.payment_method.provider_token@,
        ) && is_decline_token(context.payment_method.provider_token@) ==> (r is Ok ==> r matches Ok(
            ChargeResult::PermanentFailure(_),
        )),
        context.invoice.amount_due.val() > 0 ==> exists|ia: Result<(), BillingError>|
            #[trigger] old(repo).increment_attempts_answer(context.invoice.id@, ia) && match ia {
                Err(e) => r == Err::<ChargeResult, BillingError>(e) && *final(repo)
                    == old(repo).after_increment_attempts(context.invoice.id@, ia),
                Ok(_) => routed_charge(
                    old(repo).after_increment_attempts(context.invoice.id@, ia),
                    *context,
                    r,
                    *final(repo),
                ),
            },
{
    let amount = context.invoice.amount_due;
    if !amount.is_positive() {
        return Ok(ChargeResult::Success { provider_reference: None });
    }
    repo.increment_attempts(context.invoice.id.as_str())?;
    match charge_route(context.payment_method.provider, context.payment_method.provider_token.as_str()) {
        ChargeRoute::Decided(result) => Ok(result),
        ChargeRoute::Stripe => repo.stripe_charge(context, amount),
        ChargeRoute::Xendit => repo.xendit_charge(context, amount),
    }
}

/// What Stripe answered to a payment-intent request, as far as the rules read it.
#[derive(Clone, Debug)]
pub struct StripeChargeResponse {
    pub status: u16,
    pub id: Option<String>,
    pub error_type: Option<String>,
    pub error_code: Option<String>,
    pub error_message: Option<String>,
}

/// What Xendit answered to a card-charge request, as far as the rules read it.
#[derive(Clone, Debug)]
pub struct XenditChargeResponse {
    pub status: u16,
    pub id: Option<String>,
    pub charge_status: Option<String>,
    pub error_code: Option<String>,
    pub message: Option<String>,
}

pub open spec fn is_success_status(status: u16) -> bool {
    200 <= status <= 299
}

pub open spec fn is_retryable_status(status: u16) -> bool {
    (500 <= status <= 599) || status == 429
}

/// A text field of a provider answer, empty when absent.
pub open spec fn field_text(f: Option<String>) -> Seq<char> {
    match f {
        Some(s) => s@,
        None => ""@,
    }
}

pub open spec fn field_or(f: Option<String>, fallback: Seq<char>) -> Seq<char> {
    match f {
        Some(s) => s@,
        None => fallback,
    }
}

/// Stripe declines that retrying cannot cure.
pub open spec fn stripe_declined(r: StripeChargeResponse) -> bool {
    r.status == 402 || field_text(r.error_type) == "card_error"@ || field_text(r.error_code)
        == "card_declined"@ || field_text(r.error_code) == "expired_card"@ || field_text(
        r.error_code,
    ) == "insufficient_funds"@
}

fn text_or_empty(f: &Option<String>) -> (r: String)
    ensures
        r@ == field_text(*f),
{
    match f {
        Some(s) => s.clone(),
        None => owned(""),
    }
}

fn text_or(f: &Option<String>, fallback: &str) -> (r: String)
    ensures
        r@ == field_or(*f, fallback@),
{
    match f {
        Some(s) => s.clone(),
        None => owned(fallback),
    }
}

fn text_is(s: &String, t: &str) -> (r: bool)
    ensures
        r == (s@ == t@),
{
    crate::text::str_eq(s.as_str(), t)
}

/// The outcome of a Stripe charge: a 2xx answer succeeds with the intent id; a card
/// decline (402, `card_error`, or a declined, expired or underfunded card) fails for
/// good; a 5xx or 429 answer may be retried; anything else fails for good.
pub fn classify_stripe_response(resp: &StripeChargeResponse) -> (r: ChargeResult)
    ensures
        is_success_status(resp.status) ==> (r matches ChargeResult::Success { provider_reference: p }
            && p == resp.id),
        !is_success_status(resp.status) && stripe_declined(*resp) ==> (r matches ChargeResult::PermanentFailure(
            m,
        ) && m@ == field_or(resp.error_message, "stripe charge failed"@)),
        !is_success_status(resp.status) && !stripe_declined(*resp) && is_retryable_status(
            resp.status,
        ) ==> (r matches ChargeResult::TransientFailure(m) && m@ == field_or(
            resp.error_message,
            "stripe charge failed"@,
        )),
        !is_success_status(resp.status) && !stripe_declined(*resp) && !is_retryable_status(
            resp.status,
        ) ==> (r matches ChargeResult::PermanentFailure(m) && m@ == field_or(
            resp.error_message,
            "stripe charge failed"@,
        )),
{
    if 200 <= resp.status && resp.status <= 299 {
        return ChargeResult::Success { provider_reference: resp.id.clone() };
    }
    let error_type = text_or_empty(&resp.error_type);
    let error_code = text_or_empty(&resp.error_code);
    let message = text_or(&resp.error_message, "stripe charge failed");
    if resp.status == 402 || text_is(&error_type, "card_error") || text_is(&error_code, "card_declined")
        || text_is(&error_code, "expired_card") || text_is(&error_code, "insufficient_funds") {
        return ChargeResult::PermanentFailure(message);
    }
    if (500 <= resp.status && resp.status <= 599) || resp.status == 429 {
        return ChargeResult::TransientFailure(message);
    }
    ChargeResult::PermanentFailure(message)
}

/// Xendit charge states that count as paid (an empty state does too).
pub open spec fn xendit_paid_state(s: Seq<char>) -> bool {
    s == "CAPTURED"@ || s == "SUCCEEDED"@ || s == "SUCCESS"@ || s.len() == 0
}

pub open spec fn xendit_declined(code: Seq<char>) -> bool {
    code == "CARD_DECLINED"@ || code == "INSUFFICIENT_BALANCE"@ || code == "EXPIRED_CARD"@
}

/// The outcome of a Xendit charge: a 2xx answer in a paid state succeeds with the
/// charge id, in another state it may be retried (`xendit charge status: <state>`);
/// a declined, underfunded or expired card fails for good; a 5xx or 429 answer may be
/// retried; anything else fails for good.
pub fn classify_xendit_response(resp: &XenditChargeResponse) -> (r: ChargeResult)
    ensures
        is_success_status(resp.status) && xendit_paid_state(field_text(resp.charge_status)) ==> (r matches ChargeResult::Success {
            provider_reference: p,
        } && p == resp.id),
        is_success_status(resp.status) && !xendit_paid_state(field_text(resp.charge_status)) ==> (r matches ChargeResult::TransientFailure(
            m,
        ) && m@ == "xendit charge status: "@ + field_text(resp.charge_status)),
        !is_success_status(resp.status) && xendit_declined(field_text(resp.error_code)) ==> (r matches ChargeResult::PermanentFailure(
            m,
        ) && m@ == field_or(resp.message, "xendit charge failed"@)),
        !is_success_status(resp.status) && !xendit_declined(field_text(resp.error_code))
            && is_retryable_status(resp.status) ==> (r matches ChargeResult::TransientFailure(m)
            && m@ == field_or(resp.message, "xendit charge failed"@)),
        !is_success_status(resp.status) && !xendit_declined(field_text(resp.error_code))
            && !is_retryable_status(resp.status) ==> (r matches ChargeResult::PermanentFailure(m)
            && m@ == field_or(resp.message, "xendit charge failed"@)),
{
    if 200 <= resp.status && resp.status <= 299 {
        let state = text_or_empty(&resp.charge_status);
        if text_is(&state, "CAPTURED") || text_is(&state, "SUCCEEDED") || text_is(&state, "SUCCESS")
            || state.as_str().unicode_len() == 0 {
            return ChargeResult::Success { provider_reference: resp.id.clone() };
        }
        let mut v: Vec<char> = Vec::new();
        extend_str(&mut v, "xendit charge status: ");
        extend_str(&mut v, state.as_str());
        return ChargeResult::TransientFailure(string_of(&v));
    }
    let code = text_or_empty(&resp.error_code);
    let message = text_or(&resp.message, "xendit charge failed");
    if text_is(&code, "CARD_DECLINED") || text_is(&code, "INSUFFICIENT_BALANCE") || text_is(
        &code,
        "EXPIRED_CARD",
    ) {
        return ChargeResult::PermanentFailure(message);
    }
    if (500 <= resp.status && resp.status <= 599) || resp.status == 429 {
        return ChargeResult::TransientFailure(message);
    }
    ChargeResult::PermanentFailure(message)
}

/// Before a provider is asked to charge: without its secret key configured, a retryable
/// failure (see `unconfigured_provider`); for Stripe, which takes minor units, an amount
/// that cannot be sent in them is an internal error; otherwise the provider is asked
/// (`None`).
pub fn charge_precheck(provider: PaymentProvider, secret_key: &String, amount: &Dec) -> (r: Result<
    Option<ChargeResult>,
    BillingError,
>)
    requires
        provider != PaymentProvider::Lemonsqueezy,
    ensures
        secret_key@.len() == 0 ==> (r matches Ok(Some(ChargeResult::TransientFailure(m))) && m@ == (if provider
            == PaymentProvider::Stripe {
            "stripe is not configured"@
        } else {
            "xendit is not configured"@
        })),
        secret_key@.len() != 0 && provider == PaymentProvider::Stripe && !(amount.wf() && spec_mul(
            *amount,
            Dec { mantissa: 100, scale: 0 },
        ) is Some) ==> r matches Err(BillingError::Internal(_)),
        secret_key@.len() != 0 && (provider == PaymentProvider::Xendit || amount.wf() && spec_mul(
            *amount,
            Dec { mantissa: 100, scale: 0 },
        ) is Some) ==> r == Ok::<Option<ChargeResult>, BillingError>(None),
{
    if secret_key.as_str().unicode_len() == 0 {
        return Ok(Some(unconfigured_provider(provider)));
    }
    if provider == PaymentProvider::Xendit {
        return Ok(None);
    }
    if !amount.is_valid() {
        return Err(crate::error::overflow());
    }
    let hundred = Dec { mantissa: 100, scale: 0 };
    proof {
        assert(hundred.wf()) by {
            crate::money::lemma_pow10_pos(28);
        }
    }
    match amount.checked_mul(&hundred) {
        Some(_) => Ok(None),
        None => Err(crate::error::overflow()),
    }
}

/// A provider that is not configured is answered with a retryable failure.
pub fn unconfigured_provider(provider: PaymentProvider) -> (r: ChargeResult)
    ensures
        r matches ChargeResult::TransientFailure(m) && m@ == (if provider == PaymentProvider::Stripe {
            "stripe is not configured"@
        } else {
            "xendit is not configured"@
        }),
{
    if provider == PaymentProvider::Stripe {
        ChargeResult::TransientFailure(owned("stripe is not configured"))
    } else {
        ChargeResult::TransientFailure(owned("xendit is not configured"))
    }
}

/// An amount in minor units (cents): the amount times 100, rounded half to even,
/// when that integer fits in 64 bits, else zero.
pub open spec fn spec_minor_units(amount: Dec) -> int {
    match spec_mul(amount, Dec { mantissa: 100, scale: 0 }) {
        Some(p) => {
            let q = spec_round_dp(p, 0);
            if i64::MIN <= q.mantissa <= i64::MAX {
                q.mantissa as int
            } else {
                0
            }
        },
        None => 0,
    }
}

pub fn decimal_to_minor_units(amount: &Dec) -> (r: i64)
    requires
        amount.wf(),
        spec_mul(*amount, Dec { mantissa: 100, scale: 0 }) is Some,
    ensures
        r == spec_minor_units(*amount),
{
    let h = dec_hundred();
    match amount.checked_mul(&h) {
        Some(p) => {
            let q = p.round_dp(0);
            if i64::MIN as i128 <= q.mantissa && q.mantissa <= i64::MAX as i128 {
                q.mantissa as i64
            } else {
                0
            }
        },
        None => 0,
    }
}

/// The lowercase form of a text.
pub uninterp spec fn lowercased(s: Seq<char>) -> Seq<char>;

/// `str::to_lowercase`. Trusted: the text is the named lowercase form of the argument.
#[verifier::external_body]
fn to_lowercase(s: &str) -> (r: String)
    ensures
        r@ == lowercased(s@),
{
    s.to_lowercase()
}

/// The form fields of a Stripe payment intent that charges `amount` off-session.
pub fn stripe_charge_form(context: &AutoChargeContext, amount: &Dec) -> (r: Vec<(String, String)>)
    requires
        amount.wf(),
        spec_mul(*amount, Dec { mantissa: 100, scale: 0 }) is Some,
    ensures
        r@.len() == 8,
        r@[0].0@ == "amount"@ && r@[0].1@ == int_text(spec_minor_units(*amount)),
        r@[1].0@ == "currency"@ && r@[1].1@ == lowercased(context.invoice.currency@),
        r@[2].0@ == "payment_method"@ && r@[2].1@ == context.payment_method.provider_token@,
        r@[3].0@ == "confirm"@ && r@[3].1@ == "true"@,
        r@[4].0@ == "off_session"@ && r@[4].1@ == "true"@,
        r@[5].0@ == "description"@ && r@[5].1@ == "Invoice "@ + context.invoice.invoice_number@
            + " auto-charge"@,
        r@[6].0@ == "metadata[invoice_id]"@ && r@[6].1@ == context.invoice.id@,
        r@[7].0@ == "metadata[payment_method_id]"@ && r@[7].1@ == context.payment_method.id@,
{
    let cents = decimal_to_minor_units(amount);
    let mut desc: Vec<char> = Vec::new();
    extend_str(&mut desc, "Invoice ");
    extend_str(&mut desc, context.invoice.invoice_number.as_str());
    extend_str(&mut desc, " auto-charge");
    let mut form: Vec<(String, String)> = Vec::new();
    form.push((owned("amount"), int_string(cents)));
    form.push((owned("currency"), to_lowercase(context.invoice.currency.as_str())));
    form.push((owned("payment_method"), context.payment_method.provider_token.clone()));
    form.push((owned("confirm"), owned("true")));
    form.push((owned("off_session"), owned("true")));
    form.push((owned("description"), string_of(&desc)));
    form.push((owned("metadata[invoice_id]"), context.invoice.id.clone()));
    form.push((owned("metadata[payment_method_id]"), context.payment_method.id.clone()));
    form
}

/// The reference a Xendit card charge carries for an invoice: `invoice-<id>`.
pub fn xendit_external_id(invoice_id: &str) -> (r: String)
    ensures
        r@ == "invoice-"@ + invoice_id@,
{
    let mut v: Vec<char> = Vec::new();
    extend_str(&mut v, "invoice-");
    extend_str(&mut v, invoice_id);
    string_of(&v)
}

} // verus!
