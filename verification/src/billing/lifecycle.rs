//! The subscription lifecycle: trial conversion, cancellation at period end,
//! pre-generated and renewal invoices, auto-charging them and the MRR movements that
//! status changes cause.
use vstd::prelude::*;
use crate::analytics::sales_ledger::{MetadataEntry, MetadataValue, SalesClassification, SalesEventSpec};
use crate::billing::auto_charge::ChargeResult;
use crate::billing::credits::spec_credit_to_apply;
use crate::billing::invoices::{
    cycle_name, discount_amount, format_cycle, item_amounts, spec_discount, InvoiceItemDraft,
};
use crate::error::{error_message, owned, BillingError};
use crate::models::{
    BillingCycle, DiscountType, Invoice, InvoiceStatus, MetadataNumber, PaymentMethod,
    PaymentProvider, PricingModel, PricingPlan, SavedPaymentMethod, Subscription,
    SubscriptionStatus,
};
use crate::money::{exact_sub, int_dec, spec_add, spec_sub, Dec};
use crate::text::{extend_str, int_string, int_text, string_of};
use crate::time::{compact_pattern, days_until, format_compact, instant_ok, spec_days_until, utc_text};

verus! {

pub const DEFAULT_PRE_RENEWAL_INVOICE_DAYS: i64 = 7;

pub const MAX_PRE_RENEWAL_INVOICE_DAYS: i64 = 90;

/// Counts of what one lifecycle run did, and the errors it met on the way.
#[derive(Clone, Debug)]
pub struct LifecycleResult {
    pub trials_converted: u64,
    pub canceled: u64,
    pub pre_generated: u64,
    pub renewed: u64,
    pub invoices_generated: u64,
    pub errors: Vec<String>,
}

impl LifecycleResult {
    /// A run that has done nothing yet.
    pub fn new() -> (r: LifecycleResult)
        ensures
            r.trials_converted == 0 && r.canceled == 0 && r.pre_generated == 0 && r.renewed == 0
                && r.invoices_generated == 0 && r.errors@.len() == 0,
    {
        LifecycleResult {
            trials_converted: 0,
            canceled: 0,
            pre_generated: 0,
            renewed: 0,
            invoices_generated: 0,
            errors: Vec::new(),
        }
    }

    /// Records the outcome of one renewal: a renewal counts once as renewed and once as
    /// an invoice generated; a failure is kept as `sub <id>: <message>`.
    pub fn record_renewal(&mut self, subscription_id: &String, outcome: &Result<(), String>)
        requires
            old(self).renewed < u64::MAX,
            old(self).invoices_generated < u64::MAX,
        ensures
            outcome is Ok ==> final(self).renewed == old(self).renewed + 1
                && final(self).invoices_generated == old(self).invoices_generated + 1
                && final(self).errors@ == old(self).errors@,
            outcome matches Err(m) ==> final(self).renewed == old(self).renewed
                && final(self).invoices_generated == old(self).invoices_generated
                && final(self).errors@.len() == old(self).errors@.len() + 1
                && final(self).errors@.last()@ == "sub "@ + subscription_id@ + ": "@ + m@
                && final(self).errors@.drop_last() == old(self).errors@,
            final(self).trials_converted == old(self).trials_converted,
            final(self).canceled == old(self).canceled,
            final(self).pre_generated == old(self).pre_generated,
    {
        match outcome {
            Ok(()) => {
                self.renewed = self.renewed + 1;
                self.invoices_generated = self.invoices_generated + 1;
            },
            Err(m) => {
                self.errors.push(failure_line(subscription_id, m));
                proof {
                    assert(self.errors@.drop_last() =~= old(self).errors@);
                }
            },
        }
    }

    /// Records the outcome of one pre-generation: an invoice made counts, none made
    /// changes nothing, a failure is kept as `sub <id>: <message>`.
    pub fn record_pre_generation(&mut self, subscription_id: &String, outcome: &Result<bool, String>)
        requires
            old(self).pre_generated < u64::MAX,
        ensures
            outcome == Ok::<bool, String>(true) ==> final(self).pre_generated == old(self).pre_generated
                + 1 && final(self).errors@ == old(self).errors@,
            outcome == Ok::<bool, String>(false) ==> final(self).pre_generated
                == old(self).pre_generated && final(self).errors@ == old(self).errors@,
            outcome matches Err(m) ==> final(self).pre_generated == old(self).pre_generated
                && final(self).errors@.len() == old(self).errors@.len() + 1
                && final(self).errors@.last()@ == "sub "@ + subscription_id@ + ": "@ + m@
                && final(self).errors@.drop_last() == old(self).errors@,
            final(self).trials_converted == old(self).trials_converted,
            final(self).canceled == old(self).canceled,
            final(self).renewed == old(self).renewed,
            final(self).invoices_generated == old(self).invoices_generated,
    {
        match outcome {
            Ok(made) => {
                if *made {
                    self.pre_generated = self.pre_generated + 1;
                }
            },
            Err(m) => {
                self.errors.push(failure_line(subscription_id, m));
                proof {
                    assert(self.errors@.drop_last() =~= old(self).errors@);
                }
            },
        }
    }
}

fn failure_line(subscription_id: &String, message: &String) -> (r: String)
    ensures
        r@ == "sub "@ + subscription_id@ + ": "@ + message@,
{
    let mut v: Vec<char> = Vec::new();
    extend_str(&mut v, "sub ");
    extend_str(&mut v, subscription_id.as_str());
    extend_str(&mut v, ": ");
    extend_str(&mut v, message.as_str());
    string_of(&v)
}

/// A subscription before and after a stored change of state.
#[derive(Clone, Debug)]
pub struct SubscriptionTransition {
    pub before: Subscription,
    pub after: Subscription,
}

/// The renewal invoice of a subscription and what renewing it leads to.
#[derive(Clone, Debug)]
pub struct RenewalInvoiceOutput {
    pub invoice: Invoice,
    pub final_amount_due: Dec,
    pub total: Dec,
    pub invoice_number: String,
    pub plan_name: String,
    pub new_period_end: i64,
}

/// Only active and past-due subscriptions count toward monthly recurring revenue.
pub open spec fn spec_contributes_to_mrr(status: SubscriptionStatus) -> bool {
    status == SubscriptionStatus::Active || status == SubscriptionStatus::PastDue
}

pub fn contributes_to_mrr(status: &SubscriptionStatus) -> (r: bool)
    ensures
        r == spec_contributes_to_mrr(*status),
{
    match status {
        SubscriptionStatus::Active | SubscriptionStatus::PastDue => true,
        _ => false,
    }
}

/// A metadata number taken as days: its value when it is an integer, else the default.
pub open spec fn metadata_days(m: MetadataNumber) -> int {
    match m {
        MetadataNumber::Integer(n) => n as int,
        _ => DEFAULT_PRE_RENEWAL_INVOICE_DAYS as int,
    }
}

/// How many days before the period end a renewal invoice is issued: the subscription's
/// `preRenewalInvoiceDays` metadata entry (else `pre_renewal_invoice_days`), 7 when
/// neither is an integer, clamped to 0..=90.
pub open spec fn spec_pre_renewal_days(sub: Subscription) -> int {
    let raw = if !(sub.meta_pre_renewal_days is Absent) {
        metadata_days(sub.meta_pre_renewal_days)
    } else {
        metadata_days(sub.meta_pre_renewal_days_snake)
    };
    if raw < 0 {
        0
    } else if raw > MAX_PRE_RENEWAL_INVOICE_DAYS {
        MAX_PRE_RENEWAL_INVOICE_DAYS as int
    } else {
        raw
    }
}

pub fn pre_renewal_invoice_days(sub: &Subscription) -> (r: i64)
    ensures
        r == spec_pre_renewal_days(*sub),
        0 <= r <= MAX_PRE_RENEWAL_INVOICE_DAYS,
        configured_lead(*sub) matches Some(n) ==> r == clamp_lead(n),
        configured_lead(*sub) is None ==> r == 7,
{
    let entry = match sub.meta_pre_renewal_days {
        MetadataNumber::Absent => sub.meta_pre_renewal_days_snake,
        other => other,
    };
    let raw = match entry {
        MetadataNumber::Integer(n) => n,
        _ => DEFAULT_PRE_RENEWAL_INVOICE_DAYS,
    };
    if raw < 0 {
        0
    } else if raw > MAX_PRE_RENEWAL_INVOICE_DAYS {
        MAX_PRE_RENEWAL_INVOICE_DAYS
    } else {
        raw
    }
}

/// The whole number of lead days a subscription's metadata configures: the
/// `preRenewalInvoiceDays` entry when present, else `pre_renewal_invoice_days`; none when
/// the entry used is absent or not an integer.
pub open spec fn configured_lead(sub: Subscription) -> Option<int> {
    let entry = if sub.meta_pre_renewal_days is Absent {
        sub.meta_pre_renewal_days_snake
    } else {
        sub.meta_pre_renewal_days
    };
    match entry {
        MetadataNumber::Integer(n) => Some(n as int),
        _ => None,
    }
}

/// A number of days kept within 0..=90.
pub open spec fn clamp_lead(n: int) -> int {
    if n < 0 {
        0
    } else if n > 90 {
        90
    } else {
        n
    }
}

/// The lead days follow the subscription's configuration: a configured whole number of
/// days within 0..=90 is used as it is, one below or above is clamped to 0 or 90, and
/// without one the lead is 7 days.
pub proof fn lemma_lead_days_follow_configuration(sub: Subscription)
    ensures
        configured_lead(sub) matches Some(n) ==> spec_pre_renewal_days(sub) == clamp_lead(n),
        forall|n: int| configured_lead(sub) == Some(n) && 0 <= n <= 90 ==> spec_pre_renewal_days(sub) == n,
        configured_lead(sub) is None ==> spec_pre_renewal_days(sub) == 7,
{
}

/// A renewal invoice is pre-generated once the period end is no more than the lead days
/// away (rounding a started day up) and has not passed; a lead of zero turns it off.
pub open spec fn spec_pre_generation_due(sub: Subscription, now: int) -> bool {
    let lead = spec_pre_renewal_days(sub);
    let d = spec_days_until(now, sub.current_period_end as int);
    lead > 0 && d > 0 && d <= lead
}

pub fn pre_generation_due(sub: &Subscription, now: i64) -> (r: bool)
    ensures
        r == spec_pre_generation_due(*sub, now as int),
{
    let lead = pre_renewal_invoice_days(sub);
    if lead <= 0 {
        return false;
    }
    let d = days_until(now, sub.current_period_end);
    !(d <= 0 || d > lead)
}

/// Whole months in one billing period.
pub open spec fn cycle_months(cycle: BillingCycle) -> u32 {
    match cycle {
        BillingCycle::Monthly => 1,
        BillingCycle::Quarterly => 3,
        BillingCycle::Yearly => 12,
    }
}

/// The UTC instant `months` calendar months after `secs` (the day clamped to the end of
/// a shorter month); nothing outside the date library's range.
pub uninterp spec fn months_later(secs: int, months: int) -> Option<int>;

/// `chrono::DateTime::from_timestamp` then `checked_add_months`. Trusted: the instant
/// is the named one for these arguments.
#[verifier::external_body]
fn add_months(secs: i64, months: u32) -> (r: Option<i64>)
    ensures
        match r {
            Some(t) => months_later(secs as int, months as int) == Some(t as int),
            None => months_later(secs as int, months as int) is None,
        },
{
    match chrono::DateTime::from_timestamp(secs, 0) {
        Some(dt) => match dt.checked_add_months(chrono::Months::new(months)) {
            Some(later) => Some(later.timestamp()),
            None => None,
        },
        None => None,
    }
}

/// The end of the next billing period after `from`.
pub fn advance_period(from: i64, cycle: BillingCycle) -> (r: Option<i64>)
    ensures
        match r {
            Some(t) => months_later(from as int, cycle_months(cycle) as int) == Some(t as int),
            None => months_later(from as int, cycle_months(cycle) as int) is None,
        },
{
    let months: u32 = match cycle {
        BillingCycle::Monthly => 1,
        BillingCycle::Quarterly => 3,
        BillingCycle::Yearly => 12,
    };
    add_months(from, months)
}

/// The MRR a subscription counts with: its plan amount while it contributes, else zero.
pub open spec fn effective_mrr(status: SubscriptionStatus, mrr: Dec) -> int {
    if spec_contributes_to_mrr(status) {
        mrr.val()
    } else {
        0
    }
}

/// The MRR a subscription counts with, as a decimal.
pub open spec fn effective_dec(status: SubscriptionStatus, mrr: Dec) -> Dec {
    if spec_contributes_to_mrr(status) {
        mrr
    } else {
        int_dec(0)
    }
}

/// The kind of MRR movement between two effective values: none when they are equal,
/// expansion when MRR grows, churn when a canceled subscription drops it to zero,
/// contraction otherwise.
pub open spec fn spec_mrr_event_type(old_eff: int, new_eff: int, after: SubscriptionStatus) -> Option<Seq<char>> {
    if new_eff == old_eff {
        None
    } else if new_eff > old_eff {
        Some("mrr_expanded"@)
    } else if new_eff == 0 && old_eff > 0 && after == SubscriptionStatus::Canceled {
        Some("mrr_churned"@)
    } else {
        Some("mrr_contracted"@)
    }
}

/// The source id of a subscription revision: `<id>:v<version>`.
pub open spec fn revision_source_id(sub: Subscription) -> Seq<char> {
    sub.id@ + ":v"@ + int_text(sub.version as int)
}

/// The recurring-revenue event that a subscription change causes, given the plan amount
/// before and after: none when the effective MRR does not move; otherwise an event of
/// the kind `spec_mrr_event_type` names, for the size of the move, in USD, sourced from
/// the subscription revision. `Err` only where the decimal difference overflows.
/// What an MRR movement records: what caused it, and the subscription's status, plan and
/// quantity before and after.
pub open spec fn mrr_metadata(m: Seq<MetadataEntry>, trigger: Seq<char>, before: Subscription, after: Subscription) -> bool {
    &&& m.len() == 7
    &&& m[0].key@ == "trigger"@
    &&& m[0].value matches MetadataValue::Text(t) && t@ == trigger
    &&& m[1].key@ == "from_status"@ && m[1].value == MetadataValue::SubscriptionStatus(before.status)
    &&& m[2].key@ == "to_status"@ && m[2].value == MetadataValue::SubscriptionStatus(after.status)
    &&& m[3].key@ == "from_plan_id"@ && m[3].value == MetadataValue::Text(before.plan_id)
    &&& m[4].key@ == "to_plan_id"@ && m[4].value == MetadataValue::Text(after.plan_id)
    &&& m[5].key@ == "from_quantity"@ && m[5].value == MetadataValue::Int(before.quantity as i64)
    &&& m[6].key@ == "to_quantity"@ && m[6].value == MetadataValue::Int(after.quantity as i64)
}

fn mrr_metadata_of(trigger: &str, before: &Subscription, after: &Subscription) -> (r: Vec<MetadataEntry>)
    ensures
        mrr_metadata(r@, trigger@, *before, *after),
{
    let mut m: Vec<MetadataEntry> = Vec::new();
    m.push(MetadataEntry { key: "trigger", value: MetadataValue::Text(owned(trigger)) });
    m.push(MetadataEntry { key: "from_status", value: MetadataValue::SubscriptionStatus(before.status) });
    m.push(MetadataEntry { key: "to_status", value: MetadataValue::SubscriptionStatus(after.status) });
    m.push(MetadataEntry { key: "from_plan_id", value: MetadataValue::Text(before.plan_id.clone()) });
    m.push(MetadataEntry { key: "to_plan_id", value: MetadataValue::Text(after.plan_id.clone()) });
    m.push(MetadataEntry { key: "from_quantity", value: MetadataValue::Int(before.quantity as i64) });
    m.push(MetadataEntry { key: "to_quantity", value: MetadataValue::Int(after.quantity as i64) });
    m
}

/// What `mrr_change_event` gives for a change and the two plan amounts.
pub open spec fn mrr_event_outcome(before: Subscription, after: Subscription, old_mrr: Dec, new_mrr: Dec, trigger: Seq<char>, r: Result<Option<SalesEventSpec>, BillingError>) -> bool {
    &&& r is Ok && exact_sub(effective_dec(after.status, new_mrr), effective_dec(before.status, old_mrr))
            is Some ==> match r.unwrap() {
            None => spec_mrr_event_type(
                effective_mrr(before.status, old_mrr),
                effective_mrr(after.status, new_mrr),
                after.status,
            ) is None,
            Some(e) => {
                let delta = effective_mrr(after.status, new_mrr) - effective_mrr(
                    before.status,
                    old_mrr,
                );
                &&& spec_mrr_event_type(
                    effective_mrr(before.status, old_mrr),
                    effective_mrr(after.status, new_mrr),
                    after.status,
                ) == Some(e.event_type@)
                &&& e.classification == SalesClassification::Recurring
                &&& e.amount_total.val() == (if delta < 0 {
                    -delta
                } else {
                    delta
                })
                &&& e.amount_total.scale == exact_sub(
                    effective_dec(after.status, new_mrr),
                    effective_dec(before.status, old_mrr),
                ).unwrap().scale
                &&& e.amount_subtotal == e.amount_total
                &&& e.amount_tax.val() == 0
                &&& e.currency@ == "USD"@
                &&& e.customer_id == Some(after.customer_id)
                &&& e.subscription_id == Some(after.id)
                &&& e.invoice_id is None
                &&& e.payment_id is None
                &&& e.source_table@ == "subscription_revisions"@
                &&& e.source_id@ == revision_source_id(after)
                &&& mrr_metadata(e.metadata@, trigger, before, after)
            },
        }
    &&& r is Err ==> spec_sub(effective_dec(after.status, new_mrr), effective_dec(before.status, old_mrr))
            is None
    &&& exact_sub(effective_dec(after.status, new_mrr), effective_dec(before.status, old_mrr)) is Some
        ==> r is Ok
}

pub fn mrr_change_event(before: &Subscription, after: &Subscription, old_mrr: &Dec, new_mrr: &Dec, trigger: &str) -> (r:
    Result<Option<SalesEventSpec>, BillingError>)
    requires
        old_mrr.wf(),
        new_mrr.wf(),
    ensures
        r is Ok && exact_sub(effective_dec(after.status, *new_mrr), effective_dec(before.status, *old_mrr))
            is Some ==> match r.unwrap() {
            None => spec_mrr_event_type(
                effective_mrr(before.status, *old_mrr),
                effective_mrr(after.status, *new_mrr),
                after.status,
            ) is None,
            Some(e) => {
                let delta = effective_mrr(after.status, *new_mrr) - effective_mrr(
                    before.status,
                    *old_mrr,
                );
                &&& spec_mrr_event_type(
                    effective_mrr(before.status, *old_mrr),
                    effective_mrr(after.status, *new_mrr),
                    after.status,
                ) == Some(e.event_type@)
                &&& e.classification == SalesClassification::Recurring
                &&& e.amount_total.val() == (if delta < 0 {
                    -delta
                } else {
                    delta
                })
                &&& e.amount_total.scale == exact_sub(
                    effective_dec(after.status, *new_mrr),
                    effective_dec(before.status, *old_mrr),
                ).unwrap().scale
                &&& e.amount_subtotal == e.amount_total
                &&& e.amount_tax.val() == 0
                &&& e.currency@ == "USD"@
                &&& e.customer_id == Some(after.customer_id)
                &&& e.subscription_id == Some(after.id)
                &&& e.invoice_id is None
                &&& e.payment_id is None
                &&& e.source_table@ == "subscription_revisions"@
                &&& e.source_id@ == revision_source_id(*after)
                &&& mrr_metadata(e.metadata@, trigger@, *before, *after)
            },
        },
        r is Err ==> spec_sub(effective_dec(after.status, *new_mrr), effective_dec(before.status, *old_mrr))
            is None,
        exact_sub(effective_dec(after.status, *new_mrr), effective_dec(before.status, *old_mrr)) is Some
            ==> r is Ok,
{
    let old_effective = if contributes_to_mrr(&before.status) {
        *old_mrr
    } else {
        Dec::zero()
    };
    let new_effective = if contributes_to_mrr(&after.status) {
        *new_mrr
    } else {
        Dec::zero()
    };
    proof {
        crate::money::lemma_sub_val(new_effective, old_effective);
    }
    let delta = match new_effective.checked_sub(&old_effective) {
        Some(d) => d,
        None => {
            return Err(crate::error::overflow());
        },
    };
    if delta.is_zero() {
        return Ok(None);
    }
    let event_type: &'static str = if delta.is_positive() {
        "mrr_expanded"
    } else if new_effective.is_zero() && old_effective.is_positive() && after.status
        == SubscriptionStatus::Canceled {
        "mrr_churned"
    } else {
        "mrr_contracted"
    };
    let amount = delta.abs();
    let mut source: Vec<char> = Vec::new();
    extend_str(&mut source, after.id.as_str());
    extend_str(&mut source, ":v");
    let version = int_string(after.version as i64);
    extend_str(&mut source, version.as_str());
    Ok(
        Some(
            SalesEventSpec {
                event_type,
                classification: SalesClassification::Recurring,
                amount_subtotal: amount,
                amount_tax: Dec::zero(),
                amount_total: amount,
                currency: owned("USD"),
                customer_id: Some(after.customer_id.clone()),
                subscription_id: Some(after.id.clone()),
                invoice_id: None,
                payment_id: None,
                source_table: "subscription_revisions",
                source_id: string_of(&source),
                metadata: mrr_metadata_of(trigger, before, after),
            },
        ),
    )
}

/// The idempotency key of the renewal invoice for the period that starts at
/// `period_start`: `renewal:<subscription id>:<YYYYMMDDHHMMSS>`.
pub fn renewal_invoice_key(sub: &Subscription, period_start: i64) -> (r: Option<String>)
    ensures
        match utc_text(period_start as int, compact_pattern()) {
            Some(t) => r matches Some(k) && k@ == "renewal:"@ + sub.id@ + ":"@ + t,
            None => r is None,
        },
{
    let stamp = match format_compact(period_start) {
        Some(s) => s,
        None => {
            return None;
        },
    };
    let mut v: Vec<char> = Vec::new();
    extend_str(&mut v, "renewal:");
    extend_str(&mut v, sub.id.as_str());
    extend_str(&mut v, ":");
    extend_str(&mut v, stamp.as_str());
    Some(string_of(&v))
}

/// The note of an automatic renewal invoice.
pub fn renewal_note(sub: &Subscription) -> (r: String)
    ensures
        r@ == "Auto-renewal for subscription "@ + sub.id@,
{
    let mut v: Vec<char> = Vec::new();
    extend_str(&mut v, "Auto-renewal for subscription ");
    extend_str(&mut v, sub.id.as_str());
    string_of(&v)
}

/// A renewal invoice falls due thirty days after it is issued.
pub fn renewal_due_at(now: i64) -> (r: i64)
    requires
        instant_ok(now),
    ensures
        r == now + 30 * 86400,
{
    now + 30 * 86400
}

/// A coupon attached to a subscription, as a renewal reads it.
#[derive(Clone, Debug)]
pub struct RenewalDiscount {
    pub discount_type: DiscountType,
    pub discount_value: Dec,
    pub coupon_code: String,
}

/// The discount lines of a renewal, as (description, amount): for each attached
/// coupon whose discount on the plan amount is positive, `Discount (<code>)` for minus
/// that discount. `None` where a discount overflows.
pub open spec fn spec_discount_lines(ds: Seq<RenewalDiscount>, amount: Dec) -> Option<Seq<(Seq<char>, Dec)>>
    decreases ds.len(),
{
    if ds.len() == 0 {
        Some(Seq::empty())
    } else {
        match spec_discount_lines(ds.drop_last(), amount) {
            Some(prev) => match spec_discount(ds.last().discount_type, ds.last().discount_value, amount) {
                Some(d) => if d.val() > 0 {
                    Some(prev.push(("Discount ("@ + ds.last().coupon_code@ + ")"@, crate::money::spec_neg(d))))
                } else {
                    Some(prev)
                },
                None => None,
            },
            None => None,
        }
    }
}

pub open spec fn discounts_wf(ds: Seq<RenewalDiscount>) -> bool {
    forall|i: int| 0 <= i < ds.len() ==> #[trigger] ds[i].discount_value.wf()
}

/// A line of a renewal invoice matches a (description, amount) pair: one unit at that
/// amount, outside any period.
pub open spec fn discount_line_matches(l: InvoiceItemDraft, p: (Seq<char>, Dec)) -> bool {
    &&& l.description@ == p.0
    &&& l.amount == p.1
    &&& l.unit_price == p.1
    &&& l.quantity == int_dec(1)
    &&& l.period_start is None
    &&& l.period_end is None
}

/// The lines of a renewal invoice: the plan for the coming period (`<plan> (<cycle>)`,
/// the billed quantity at the plan's base price, for `amount`), then the discount lines.
pub fn renewal_line_items(
    plan: &PricingPlan,
    sub: &Subscription,
    quantity: i32,
    amount: &Dec,
    new_period_end: i64,
    discounts: &Vec<RenewalDiscount>,
) -> (r: Option<Vec<InvoiceItemDraft>>)
    requires
        amount.wf(),
        discounts_wf(discounts@),
    ensures
        match spec_discount_lines(discounts@, *amount) {
            None => r is None,
            Some(lines) => r matches Some(v) && {
                &&& v@.len() == lines.len() + 1
                &&& v@[0].description@ == plan.name@ + " ("@ + cycle_name(plan.billing_cycle) + ")"@
                &&& v@[0].quantity == int_dec(quantity as int)
                &&& v@[0].unit_price == plan.base_price
                &&& v@[0].amount == *amount
                &&& v@[0].period_start == Some(sub.current_period_end)
                &&& v@[0].period_end == Some(new_period_end)
                &&& forall|i: int| 0 <= i < lines.len() ==> discount_line_matches(
                    #[trigger] v@[i + 1],
                    lines[i],
                )
            },
        },
        r matches Some(v) ==> forall|i: int| 0 <= i < v@.len() ==> (#[trigger] v@[i]).amount.wf(),
{
    let mut desc: Vec<char> = Vec::new();
    extend_str(&mut desc, plan.name.as_str());
    extend_str(&mut desc, " (");
    extend_str(&mut desc, format_cycle(plan.billing_cycle));
    extend_str(&mut desc, ")");
    let mut items: Vec<InvoiceItemDraft> = Vec::new();
    items.push(
        InvoiceItemDraft {
            description: string_of(&desc),
            quantity: Dec::from_int(quantity as i64),
            unit_price: plan.base_price,
            amount: *amount,
            period_start: Some(sub.current_period_end),
            period_end: Some(new_period_end),
        },
    );
    let mut i: usize = 0;
    while i < discounts.len()
        invariant
            amount.wf(),
            discounts_wf(discounts@),
            i <= discounts.len(),
            items@.len() >= 1,
            items@[0].description@ == plan.name@ + " ("@ + cycle_name(plan.billing_cycle) + ")"@,
            items@[0].quantity == int_dec(quantity as int),
            items@[0].unit_price == plan.base_price,
            items@[0].amount == *amount,
            items@[0].period_start == Some(sub.current_period_end),
            items@[0].period_end == Some(new_period_end),
            forall|k: int| 0 <= k < items@.len() ==> (#[trigger] items@[k]).amount.wf(),
            spec_discount_lines(discounts@.subrange(0, i as int), *amount) matches Some(lines) && {
                &&& items@.len() == lines.len() + 1
                &&& forall|k: int| 0 <= k < lines.len() ==> discount_line_matches(
                    #[trigger] items@[k + 1],
                    lines[k],
                )
            },
        decreases discounts.len() - i,
    {
        let d = &discounts[i];
        proof {
            assert(discounts@.subrange(0, i + 1).drop_last() =~= discounts@.subrange(0, i as int));
            assert(discounts@.subrange(0, i + 1).last() == discounts@[i as int]);
            assert(d.discount_value.wf());
        }
        let off = match discount_amount(d.discount_type, &d.discount_value, amount) {
            Some(x) => x,
            None => {
                proof {
                    lemma_discount_lines_none_extends(discounts@, *amount, (i + 1) as nat);
                    assert(discounts@.subrange(0, discounts@.len() as int) =~= discounts@);
                }
                return None;
            },
        };
        if off.is_positive() {
            let neg = off.neg();
            let mut dd: Vec<char> = Vec::new();
            extend_str(&mut dd, "Discount (");
            extend_str(&mut dd, d.coupon_code.as_str());
            extend_str(&mut dd, ")");
            let ghost before = items@;
            items.push(
                InvoiceItemDraft {
                    description: string_of(&dd),
                    quantity: Dec::from_int(1),
                    unit_price: neg,
                    amount: neg,
                    period_start: None,
                    period_end: None,
                },
            );
            proof {
                assert(items@[0] == before[0]);
                let lines = spec_discount_lines(discounts@.subrange(0, i as int), *amount).unwrap();
                let lines2 = spec_discount_lines(discounts@.subrange(0, i + 1), *amount).unwrap();
                assert(lines2 == lines.push(("Discount ("@ + d.coupon_code@ + ")"@, neg)));
                assert forall|k: int| 0 <= k < lines2.len() implies discount_line_matches(
                    #[trigger] items@[k + 1],
                    lines2[k],
                ) by {
                    if k < lines.len() {
                        assert(items@[k + 1] == before[k + 1]);
                    }
                }
            }
        }
        i = i + 1;
    }
    proof {
        assert(discounts@.subrange(0, discounts@.len() as int) =~= discounts@);
    }
    Some(items)
}

proof fn lemma_discount_lines_none_extends(ds: Seq<RenewalDiscount>, amount: Dec, n: nat)
    requires
        n <= ds.len(),
        spec_discount_lines(ds.subrange(0, n as int), amount) is None,
    ensures
        spec_discount_lines(ds, amount) is None,
    decreases ds.len() - n,
{
    if n < ds.len() {
        assert(ds.subrange(0, (n + 1) as int).drop_last() =~= ds.subrange(0, n as int));
        lemma_discount_lines_none_extends(ds, amount, n + 1);
    } else {
        assert(ds.subrange(0, n as int) =~= ds);
    }
}

/// The total of a renewal invoice: the subtotal when the tax is included in prices,
/// else subtotal plus tax.
pub open spec fn spec_tax_total(subtotal: Dec, tax: Dec, inclusive: bool) -> Option<Dec> {
    if inclusive {
        Some(subtotal)
    } else {
        spec_add(subtotal, tax)
    }
}

pub fn tax_total(subtotal: &Dec, tax: &Dec, inclusive: bool) -> (r: Option<Dec>)
    requires
        subtotal.wf(),
        tax.wf(),
    ensures
        r == spec_tax_total(*subtotal, *tax, inclusive),
        r matches Some(t) ==> t.wf(),
{
    if inclusive {
        Some(*subtotal)
    } else {
        subtotal.checked_add(tax)
    }
}

/// What drawing customer credit leaves of a renewal invoice: the credit drawn, the
/// amount still due, and whether the invoice is paid by that (nothing left due).
#[derive(Clone, Copy, Debug)]
pub struct RenewalSettlement {
    pub credits_applied: Dec,
    pub final_amount_due: Dec,
    pub paid: bool,
}

pub fn renewal_settlement(total: &Dec, balance: Option<Dec>) -> (r: Option<RenewalSettlement>)
    requires
        total.wf(),
        balance matches Some(b) ==> b.wf(),
    ensures
        r matches Some(s) ==> {
            &&& s.credits_applied == spec_credit_to_apply(*total, balance)
            &&& s.final_amount_due.wf()
            &&& s.paid == (s.final_amount_due.val() <= 0)
            &&& exact_sub(*total, s.credits_applied) is Some ==> s.final_amount_due.val() == total.val()
                - s.credits_applied.val() && (total.val() >= 0 ==> s.final_amount_due.val() >= 0)
        },
        r is None <==> spec_sub(*total, spec_credit_to_apply(*total, balance)) is None,
        r matches Some(s) ==> spec_sub(*total, s.credits_applied) == Some(s.final_amount_due),
{
    let applied = crate::billing::credits::credit_to_apply(total, balance);
    proof {
        crate::money::lemma_sub_val(*total, applied);
    }
    match total.checked_sub(&applied) {
        Some(due) => Some(
            RenewalSettlement {
                credits_applied: applied,
                final_amount_due: due,
                paid: !due.is_positive(),
            },
        ),
        None => None,
    }
}

/// A renewal invoice is charged to the saved method only when something is still due
/// and it is not already paid.
pub fn renewal_charge_due(final_amount_due: &Dec, status: InvoiceStatus) -> (r: bool)
    requires
        final_amount_due.wf(),
    ensures
        r == (final_amount_due.val() > 0 && status != InvoiceStatus::Paid),
{
    final_amount_due.is_positive() && status != InvoiceStatus::Paid
}

/// What follows a charge attempt on a renewal.
#[derive(Clone, Debug)]
pub enum ChargeFollowUp {
    /// Record the payment, with the provider's reference.
    Settle(Option<String>),
    /// Mark the saved method as failed.
    MarkMethodFailed,
    /// Nothing more to do.
    Nothing,
}

pub fn charge_follow_up(result: ChargeResult) -> (r: ChargeFollowUp)
    ensures
        result matches ChargeResult::Success { provider_reference: p } ==> r == ChargeFollowUp::Settle(
            p,
        ),
        result is PermanentFailure ==> r is MarkMethodFailed,
        !(result is Success) && !(result is PermanentFailure) ==> r is Nothing,
{
    match result {
        ChargeResult::Success { provider_reference } => ChargeFollowUp::Settle(provider_reference),
        ChargeResult::PermanentFailure(_) => ChargeFollowUp::MarkMethodFailed,
        _ => ChargeFollowUp::Nothing,
    }
}

/// The stored name of a payment provider.
pub open spec fn spec_provider_name(p: PaymentProvider) -> Seq<char> {
    match p {
        PaymentProvider::Stripe => "stripe"@,
        PaymentProvider::Xendit => "xendit"@,
        PaymentProvider::Lemonsqueezy => "lemonsqueezy"@,
    }
}

pub fn provider_name(provider: &PaymentProvider) -> (r: &'static str)
    ensures
        r@ == spec_provider_name(*provider),
{
    match provider {
        PaymentProvider::Stripe => "stripe",
        PaymentProvider::Xendit => "xendit",
        PaymentProvider::Lemonsqueezy => "lemonsqueezy",
    }
}

/// The payment method a provider's payment is recorded under.
pub fn payment_method_for(provider: PaymentProvider) -> (r: PaymentMethod)
    ensures
        provider == PaymentProvider::Stripe ==> r == PaymentMethod::Stripe,
        provider == PaymentProvider::Xendit ==> r == PaymentMethod::Xendit,
        provider == PaymentProvider::Lemonsqueezy ==> r == PaymentMethod::Lemonsqueezy,
{
    match provider {
        PaymentProvider::Stripe => PaymentMethod::Stripe,
        PaymentProvider::Xendit => PaymentMethod::Xendit,
        PaymentProvider::Lemonsqueezy => PaymentMethod::Lemonsqueezy,
    }
}

/// The payment recorded when an auto-charge succeeds.
#[derive(Clone, Debug)]
pub struct AutoChargePayment {
    pub invoice_id: String,
    pub amount: Dec,
    pub method: PaymentMethod,
    pub reference: String,
    pub paid_at: i64,
    pub notes: String,
    pub stripe_payment_intent_id: Option<String>,
    pub xendit_payment_id: Option<String>,
}

/// Whether settling a successful charge of the invoice records a payment: only while the
/// invoice is not paid.
pub open spec fn records_payment(invoice: Invoice) -> bool {
    invoice.status != InvoiceStatus::Paid
}

/// The invoice as a settlement leaves it: paid at `paid_at`, one version on.
pub open spec fn settled_invoice(invoice: Invoice, paid_at: i64) -> Invoice {
    Invoice {
        status: InvoiceStatus::Paid,
        paid_at: Some(paid_at),
        version: (invoice.version + 1) as i32,
        ..invoice
    }
}

/// Settling a charge is idempotent: once a settlement has marked the invoice paid, a
/// second settlement of the same invoice records no payment.
pub proof fn lemma_settlement_idempotent(invoice: Invoice, paid_at: i64)
    ensures
        !records_payment(settled_invoice(invoice, paid_at)),
        settled_invoice(invoice, paid_at).id == invoice.id,
{
}

/// Settling a successful auto-charge: nothing when the invoice is already paid; else a
/// payment of the amount due, under the provider's method, referenced
/// `auto-charge:<provider>:<method id>`, with the provider's reference kept in the
/// column of its provider.
pub fn auto_charge_payment(
    locked_invoice: &Invoice,
    payment_method: &SavedPaymentMethod,
    provider_reference: &Option<String>,
    paid_at: i64,
) -> (r: Option<AutoChargePayment>)
    ensures
        r is Some <==> records_payment(*locked_invoice),
        locked_invoice.status == InvoiceStatus::Paid ==> r is None,
        locked_invoice.status != InvoiceStatus::Paid ==> (r matches Some(p) && {
            &&& p.invoice_id == locked_invoice.id
            &&& p.amount == locked_invoice.amount_due
            &&& (payment_method.provider == PaymentProvider::Stripe ==> p.method
                == PaymentMethod::Stripe)
            &&& (payment_method.provider == PaymentProvider::Xendit ==> p.method
                == PaymentMethod::Xendit)
            &&& (payment_method.provider == PaymentProvider::Lemonsqueezy ==> p.method
                == PaymentMethod::Lemonsqueezy)
            &&& p.reference@ == "auto-charge:"@ + spec_provider_name(payment_method.provider)
                + ":"@ + payment_method.id@
            &&& p.paid_at == paid_at
            &&& p.notes@ == "Auto-charge via saved payment method"@
            &&& p.stripe_payment_intent_id == (if payment_method.provider
                == PaymentProvider::Stripe {
                *provider_reference
            } else {
                None
            })
            &&& p.xendit_payment_id == (if payment_method.provider == PaymentProvider::Xendit {
                *provider_reference
            } else {
                None
            })
        }),
{
    if locked_invoice.status == InvoiceStatus::Paid {
        return None;
    }
    let mut reference: Vec<char> = Vec::new();
    extend_str(&mut reference, "auto-charge:");
    extend_str(&mut reference, provider_name(&payment_method.provider));
    extend_str(&mut reference, ":");
    extend_str(&mut reference, payment_method.id.as_str());
    let stripe_ref = if payment_method.provider == PaymentProvider::Stripe {
        provider_reference.clone()
    } else {
        None
    };
    let xendit_ref = if payment_method.provider == PaymentProvider::Xendit {
        provider_reference.clone()
    } else {
        None
    };
    Some(
        AutoChargePayment {
            invoice_id: locked_invoice.id.clone(),
            amount: locked_invoice.amount_due,
            method: payment_method_for(payment_method.provider),
            reference: string_of(&reference),
            paid_at,
            notes: owned("Auto-charge via saved payment method"),
            stripe_payment_intent_id: stripe_ref,
            xendit_payment_id: xendit_ref,
        },
    )
}

/// The billed quantity of a usage-based plan from its metered total: the total read as
/// a whole number (a fractional or out-of-range total reads as zero), at least zero,
/// cut to 32 bits.
pub open spec fn spec_usage_quantity(total: Dec) -> i32 {
    if total.scale == 0 && i64::MIN <= total.mantissa <= i64::MAX {
        if total.mantissa < 0 {
            0
        } else {
            total.mantissa as i32
        }
    } else {
        0
    }
}

/// The quantity a renewal bills: the metered usage for a usage-based plan, else the
/// subscription's own quantity.
pub fn compute_quantity(sub: &Subscription, plan: &PricingPlan, usage_total: &Dec) -> (r: i32)
    ensures
        plan.pricing_model == PricingModel::UsageBased ==> r == spec_usage_quantity(*usage_total),
        plan.pricing_model != PricingModel::UsageBased ==> r == sub.quantity,
{
    if plan.pricing_model == PricingModel::UsageBased {
        if usage_total.scale == 0 && i64::MIN as i128 <= usage_total.mantissa
            && usage_total.mantissa <= i64::MAX as i128 {
            let usage = usage_total.mantissa as i64;
            if usage < 0 {
                0
            } else {
                #[verifier::truncate]
                (usage as i32)
            }
        } else {
            0
        }
    } else {
        sub.quantity
    }
}

/// The ledger event of a renewal: recurring revenue of the invoice total, untaxed, in
/// USD, sourced from the invoice.
pub fn renewal_sales_event(sub: &Subscription, invoice_id: &String, total: &Dec, invoice_number: &String) -> (r: SalesEventSpec)
    ensures
        r.metadata@.len() == 1 && r.metadata@[0].key@ == "invoice_number"@ && r.metadata@[0].value
            == MetadataValue::Text(*invoice_number),
        r.event_type@ == "subscription.renewed"@,
        r.classification == SalesClassification::Recurring,
        r.amount_subtotal == *total,
        r.amount_total == *total,
        r.amount_tax.val() == 0,
        r.currency@ == "USD"@,
        r.customer_id == Some(sub.customer_id),
        r.subscription_id == Some(sub.id),
        r.invoice_id == Some(*invoice_id),
        r.payment_id is None,
        r.source_table@ == "invoices"@,
        r.source_id == *invoice_id,
{
    SalesEventSpec {
        event_type: "subscription.renewed",
        classification: SalesClassification::Recurring,
        amount_subtotal: *total,
        amount_tax: Dec::zero(),
        amount_total: *total,
        currency: owned("USD"),
        customer_id: Some(sub.customer_id.clone()),
        subscription_id: Some(sub.id.clone()),
        invoice_id: Some(invoice_id.clone()),
        payment_id: None,
        source_table: "invoices",
        source_id: invoice_id.clone(),
        metadata: {
            let mut m: Vec<MetadataEntry> = Vec::new();
            m.push(MetadataEntry { key: "invoice_number", value: MetadataValue::Text(invoice_number.clone()) });
            m
        },
    }
}

} // verus!

verus! {

/// Storage, pricing, charging and notifications that the lifecycle drives.
pub trait LifecycleRepository: Sized {
    /// Holds of each answer the store gives to converting the trials expired at `now`
    /// (the transitions made); a store that does not describe its answers admits every
    /// answer (so for each relation below).
    closed spec fn convert_expired_trials_answer(&self, now: int, answer: Result<Vec<SubscriptionTransition>, BillingError>) -> bool {
        true
    }

    /// Holds of each answer to canceling, at `now`, the subscriptions due to cancel.
    closed spec fn cancel_at_period_end_answer(&self, now: int, answer: Result<Vec<SubscriptionTransition>, BillingError>) -> bool {
        true
    }

    /// Holds of each answer to listing the subscriptions whose period ends by `window_end`.
    closed spec fn list_pre_generatable_subscriptions_answer(&self, now: int, window_end: int, answer: Result<Vec<Subscription>, BillingError>) -> bool {
        true
    }

    /// Holds of each answer to listing the subscriptions to renew at `now`.
    closed spec fn list_renewable_subscriptions_answer(&self, now: int, answer: Result<Vec<Subscription>, BillingError>) -> bool {
        true
    }

    /// Holds of each answer when asked for the plan `plan_id`.
    closed spec fn find_plan_answer(&self, plan_id: Seq<char>, answer: Result<PricingPlan, BillingError>) -> bool {
        true
    }

    /// Holds of each answer when asked what the plan charges for `quantity`.
    closed spec fn plan_amount_answer(&self, plan: PricingPlan, quantity: i32, answer: Result<Dec, BillingError>) -> bool {
        true
    }

    /// Holds of each answer when asked for the renewal invoice of the period starting at
    /// `period_start`.
    closed spec fn find_existing_renewal_invoice_answer(&self, sub: Subscription, period_start: int, answer: Result<Option<Invoice>, BillingError>) -> bool {
        true
    }

    /// Holds of each answer to making sure the renewal invoice of `sub` exists.
    closed spec fn ensure_renewal_invoice_answer(&self, sub: Subscription, now: int, notify_invoice_issued: bool, answer: Result<Option<RenewalInvoiceOutput>, BillingError>) -> bool {
        true
    }

    /// Holds of each answer to moving the period of the subscription to end at
    /// `new_period_end`.
    closed spec fn advance_subscription_period_answer(&self, subscription_id: Seq<char>, new_period_end: int, answer: Result<(), BillingError>) -> bool {
        true
    }

    /// Holds of each answer to dispatching the notices of a renewal.
    closed spec fn dispatch_subscription_renewed_side_effects_answer(&self, subscription: Subscription, output: RenewalInvoiceOutput, answer: Result<(), BillingError>) -> bool {
        true
    }

    /// The store after converting the trials expired at `now`, with that answer; a store
    /// that does not describe its state keeps the same value (so for each `after_`
    /// function below).
    closed spec fn after_convert_expired_trials(&self, now: int, answer: Result<Vec<SubscriptionTransition>, BillingError>) -> Self {
        *self
    }

    /// The store after canceling the subscriptions due to cancel at `now`.
    closed spec fn after_cancel_at_period_end(&self, now: int, answer: Result<Vec<SubscriptionTransition>, BillingError>) -> Self {
        *self
    }

    /// The store after making sure the renewal invoice of `sub` exists.
    closed spec fn after_ensure_renewal_invoice(&self, sub: Subscription, now: int, notify_invoice_issued: bool, answer: Result<Option<RenewalInvoiceOutput>, BillingError>) -> Self {
        *self
    }

    /// The store after moving the period of the subscription.
    closed spec fn after_advance_subscription_period(&self, subscription_id: Seq<char>, new_period_end: int, answer: Result<(), BillingError>) -> Self {
        *self
    }

    /// The store after dispatching the notices of a renewal.
    closed spec fn after_dispatch_subscription_renewed_side_effects(&self, subscription: Subscription, output: RenewalInvoiceOutput, answer: Result<(), BillingError>) -> Self {
        *self
    }

    fn convert_expired_trials(&mut self, now: i64) -> (r: Result<Vec<SubscriptionTransition>, BillingError>)
        ensures
            old(self).convert_expired_trials_answer(now as int, r),
            *final(self) == old(self).after_convert_expired_trials(now as int, r),
    ;

    fn cancel_at_period_end(&mut self, now: i64) -> (r: Result<Vec<SubscriptionTransition>, BillingError>)
        ensures
            old(self).cancel_at_period_end_answer(now as int, r),
            *final(self) == old(self).after_cancel_at_period_end(now as int, r),
    ;

    fn list_pre_generatable_subscriptions(&self, now: i64, window_end: i64) -> (r: Result<
        Vec<Subscription>,
        BillingError,
    >)
        ensures
            self.list_pre_generatable_subscriptions_answer(now as int, window_end as int, r),
    ;

    fn list_renewable_subscriptions(&self, now: i64) -> (r: Result<Vec<Subscription>, BillingError>)
        ensures
            self.list_renewable_subscriptions_answer(now as int, r),
    ;

    fn find_plan(&self, plan_id: &str) -> (r: Result<PricingPlan, BillingError>)
        ensures
            self.find_plan_answer(plan_id@, r),
    ;

    /// What the plan charges for a quantity under its pricing model.
    fn plan_amount(&self, plan: &PricingPlan, quantity: i32) -> (r: Result<Dec, BillingError>)
        ensures
            self.plan_amount_answer(*plan, quantity, r),
    ;

    fn find_existing_renewal_invoice(&self, sub: &Subscription, period_start: i64) -> (r: Result<
        Option<Invoice>,
        BillingError,
    >)
        ensures
            self.find_existing_renewal_invoice_answer(*sub, period_start as int, r),
    ;

    fn ensure_renewal_invoice(&mut self, sub: &Subscription, now: i64, notify_invoice_issued: bool) -> (r: Result<
        Option<RenewalInvoiceOutput>,
        BillingError,
    >)
        ensures
            old(self).ensure_renewal_invoice_answer(*sub, now as int, notify_invoice_issued, r),
            *final(self) == old(self).after_ensure_renewal_invoice(*sub, now as int, notify_invoice_issued, r),
    ;

    fn advance_subscription_period(&mut self, subscription_id: &str, new_period_end: i64) -> (r: Result<
        (),
        BillingError,
    >)
        ensures
            old(self).advance_subscription_period_answer(subscription_id@, new_period_end as int, r),
            *final(self) == old(self).after_advance_subscription_period(subscription_id@, new_period_end as int, r),
    ;

    /// Holds of each answer when asked for the default saved method of the customer.
    closed spec fn get_default_payment_method_answer(&self, customer_id: Seq<char>, answer: Result<Option<SavedPaymentMethod>, BillingError>) -> bool {
        true
    }

    /// Holds of each answer to charging the invoice to the saved method.
    closed spec fn try_auto_charge_answer(&self, invoice: Invoice, payment_method: SavedPaymentMethod, answer: Result<ChargeResult, BillingError>) -> bool {
        true
    }

    /// Holds of each answer to recording a successful charge of the invoice.
    closed spec fn settle_auto_charge_success_answer(&self, invoice: Invoice, payment_method: SavedPaymentMethod, provider_reference: Option<Seq<char>>, answer: Result<(), BillingError>) -> bool {
        true
    }

    /// Holds of each answer to marking the saved method `method_id` as failed.
    closed spec fn mark_payment_method_failed_answer(&self, method_id: Seq<char>, answer: Result<(), BillingError>) -> bool {
        true
    }

    /// Holds of each answer to recording `event` in the sales ledger.
    closed spec fn emit_sales_event_answer(&self, event: SalesEventSpec, answer: Result<(), BillingError>) -> bool {
        true
    }

    /// The store after charging the invoice to the saved method.
    closed spec fn after_try_auto_charge(&self, invoice: Invoice, payment_method: SavedPaymentMethod, answer: Result<ChargeResult, BillingError>) -> Self {
        *self
    }

    /// The store after recording a successful charge of the invoice.
    closed spec fn after_settle_auto_charge_success(&self, invoice: Invoice, payment_method: SavedPaymentMethod, provider_reference: Option<Seq<char>>, answer: Result<(), BillingError>) -> Self {
        *self
    }

    /// The store after marking the saved method `method_id` as failed.
    closed spec fn after_mark_payment_method_failed(&self, method_id: Seq<char>, answer: Result<(), BillingError>) -> Self {
        *self
    }

    /// The store after recording `event` in the sales ledger.
    closed spec fn after_emit_sales_event(&self, event: SalesEventSpec, answer: Result<(), BillingError>) -> Self {
        *self
    }

    fn get_default_payment_method(&self, customer_id: &str) -> (r: Result<Option<SavedPaymentMethod>, BillingError>)
        ensures
            self.get_default_payment_method_answer(customer_id@, r),
    ;

    fn try_auto_charge(&mut self, invoice: &Invoice, payment_method: &SavedPaymentMethod) -> (r: Result<
        ChargeResult,
        BillingError,
    >)
        ensures
            old(self).try_auto_charge_answer(*invoice, *payment_method, r),
            *final(self) == old(self).after_try_auto_charge(*invoice, *payment_method, r),
    ;

    fn settle_auto_charge_success(
        &mut self,
        invoice: &Invoice,
        payment_method: &SavedPaymentMethod,
        provider_reference: Option<&str>,
    ) -> (r: Result<(), BillingError>)
        ensures
            old(self).settle_auto_charge_success_answer(
                *invoice,
                *payment_method,
                match provider_reference {
                    Some(t) => Some(t@),
                    None => None,
                },
                r,
            ),
            *final(self) == old(self).after_settle_auto_charge_success(
                *invoice,
                *payment_method,
                match provider_reference {
                    Some(t) => Some(t@),
                    None => None,
                },
                r,
            ),
    ;

    fn mark_payment_method_failed(&mut self, method_id: &str) -> (r: Result<(), BillingError>)
        ensures
            old(self).mark_payment_method_failed_answer(method_id@, r),
            *final(self) == old(self).after_mark_payment_method_failed(method_id@, r),
    ;

    fn emit_sales_event(&mut self, event: SalesEventSpec) -> (r: Result<(), BillingError>)
        ensures
            old(self).emit_sales_event_answer(event, r),
            *final(self) == old(self).after_emit_sales_event(event, r),
    ;

    fn dispatch_subscription_renewed_side_effects(&mut self, subscription: &Subscription, output: &RenewalInvoiceOutput) -> (r: Result<
        (),
        BillingError,
    >)
        ensures
            old(self).dispatch_subscription_renewed_side_effects_answer(*subscription, *output, r),
            *final(self) == old(self).after_dispatch_subscription_renewed_side_effects(*subscription, *output, r),
    ;
}

/// The plan amount a subscription counts with: the store's price of its plan for its
/// quantity; an amount outside the decimal domain is an internal error.
pub open spec fn mrr_outcome<R: LifecycleRepository>(repo: R, sub: Subscription, r: Result<Dec, BillingError>) -> bool {
    exists|pa: Result<PricingPlan, BillingError>|
        #[trigger] repo.find_plan_answer(sub.plan_id@, pa) && match pa {
            Err(e) => r == Err::<Dec, BillingError>(e),
            Ok(plan) => exists|aa: Result<Dec, BillingError>|
                #[trigger] repo.plan_amount_answer(plan, sub.quantity, aa) && match aa {
                    Err(e) => r == Err::<Dec, BillingError>(e),
                    Ok(amount) => if amount.wf() {
                        r == Ok::<Dec, BillingError>(amount)
                    } else {
                        r matches Err(BillingError::Internal(_))
                    },
                },
        }
}

/// Recording the MRR movement of the change `before` to `after`, from the store `s` to
/// the store `fin`: when either side cannot be priced nothing is recorded; otherwise the
/// event `mrr_change_event` gives, if any, is handed to the sales ledger once, and
/// without an event (the effective MRR did not move) the store is left as it was.
pub open spec fn mrr_recorded<R: LifecycleRepository>(s: R, before: Subscription, after: Subscription, trigger: Seq<char>, fin: R) -> bool {
    ||| (exists|e: BillingError| #[trigger] mrr_outcome(s, before, Err(e))) && fin == s
    ||| (exists|old_mrr: Dec, e: BillingError|
        #[trigger] mrr_outcome(s, before, Ok(old_mrr)) && #[trigger] mrr_outcome(s, after, Err(e)))
        && fin == s
    ||| exists|old_mrr: Dec, new_mrr: Dec, ev: Result<Option<SalesEventSpec>, BillingError>|
        #[trigger] mrr_outcome(s, before, Ok(old_mrr)) && #[trigger] mrr_outcome(s, after, Ok(new_mrr))
            && #[trigger] mrr_event_outcome(before, after, old_mrr, new_mrr, trigger, ev) && match ev {
            Ok(Some(event)) => exists|a: Result<(), BillingError>|
                #[trigger] s.emit_sales_event_answer(event, a) && fin == s.after_emit_sales_event(event, a),
            _ => fin == s,
        }
}

/// The line a run keeps for a subscription it could not deal with.
pub open spec fn failure_text(subscription_id: Seq<char>, message: Seq<char>) -> Seq<char> {
    "sub "@ + subscription_id + ": "@ + message
}

/// The texts of `v` are the lines `t`, in order.
pub open spec fn lines_are(v: Seq<String>, t: Seq<Seq<char>>) -> bool {
    &&& v.len() == t.len()
    &&& forall|k: int| 0 <= k < v.len() ==> #[trigger] v[k]@ == t[k]
}

/// One subscription of a pre-generation run at `now`, from the store `s` to the store
/// `next`: a due one has its renewal invoice made sure of, with the notice, and the
/// store answers `a`; any other leaves the store as it was.
pub open spec fn pregen_step<R: LifecycleRepository>(s: R, sub: Subscription, now: int, a: Result<Option<RenewalInvoiceOutput>, BillingError>, next: R) -> bool {
    if spec_pre_generation_due(sub, now) {
        s.ensure_renewal_invoice_answer(sub, now, true, a) && next == s.after_ensure_renewal_invoice(
            sub,
            now,
            true,
            a,
        )
    } else {
        next == s
    }
}

/// A pre-generation run over the first `answers.len()` of `subs`: `states[i]` is the
/// store before subscription `i` and `answers[i]` the store's answer for it.
pub open spec fn pregen_run<R: LifecycleRepository>(subs: Seq<Subscription>, now: int, answers: Seq<Result<Option<RenewalInvoiceOutput>, BillingError>>, states: Seq<R>) -> bool {
    &&& answers.len() <= subs.len()
    &&& states.len() == answers.len() + 1
    &&& forall|i: int| #![trigger subs[i]]
        0 <= i < answers.len() ==> pregen_step(states[i], subs[i], now, answers[i], states[i + 1])
}

/// How many invoices a pre-generation run made: the due subscriptions whose invoice
/// came back.
pub open spec fn pregen_made(subs: Seq<Subscription>, now: int, answers: Seq<Result<Option<RenewalInvoiceOutput>, BillingError>>) -> int
    decreases answers.len(),
{
    if answers.len() == 0 {
        0
    } else {
        pregen_made(subs, now, answers.drop_last()) + if spec_pre_generation_due(
            subs[answers.len() - 1],
            now,
        ) && answers.last() matches Ok(Some(_)) {
            1int
        } else {
            0int
        }
    }
}

/// The failure lines of a pre-generation run: one for each due subscription whose
/// invoice the store failed to make, in order.
pub open spec fn pregen_errors(subs: Seq<Subscription>, now: int, answers: Seq<Result<Option<RenewalInvoiceOutput>, BillingError>>) -> Seq<Seq<char>>
    decreases answers.len(),
{
    if answers.len() == 0 {
        Seq::empty()
    } else {
        let prev = pregen_errors(subs, now, answers.drop_last());
        if spec_pre_generation_due(subs[answers.len() - 1], now) && answers.last() is Err {
            prev.push(failure_text(subs[answers.len() - 1].id@, error_message(answers.last()->Err_0)))
        } else {
            prev
        }
    }
}

/// What pre-generating at `now` gives, from the store `s` to the store `fin`, over the
/// subscriptions the store lists as ending within the largest lead window: each due one
/// is handed to the store once, the others are left alone; the count of invoices made
/// and the failures as `pregen_made` and `pregen_errors` say.
pub open spec fn pregen_outcome<R: LifecycleRepository>(s: R, now: int, r: Result<(u64, Vec<String>), BillingError>, fin: R) -> bool {
    exists|a: Result<Vec<Subscription>, BillingError>|
        #[trigger] s.list_pre_generatable_subscriptions_answer(
            now,
            now + MAX_PRE_RENEWAL_INVOICE_DAYS * 86400,
            a,
        ) && match a {
            Err(e) => r == Err::<(u64, Vec<String>), BillingError>(e) && fin == s,
            Ok(subs) => exists|
                answers: Seq<Result<Option<RenewalInvoiceOutput>, BillingError>>,
                states: Seq<R>,
            | {
                &&& #[trigger] pregen_run(subs@, now, answers, states)
                &&& answers.len() == subs@.len()
                &&& states[0] == s
                &&& states[answers.len() as int] == fin
                &&& r matches Ok(p) && p.0 == pregen_made(subs@, now, answers) && lines_are(
                    p.1@,
                    pregen_errors(subs@, now, answers),
                )
            },
        }
}

/// A renewal with its invoice decided, from the store `s` to the store `fin`: the period
/// is moved to the invoice's new end, the invoice is charged as `renewal_charged` says,
/// then the renewal notices go out; the renewal succeeds when moving the period and the
/// notices do, and a successful renewal is recorded in the sales ledger (a charge or a
/// ledger failure does not undo it).
pub open spec fn renewed_with<R: LifecycleRepository>(s: R, sub: Subscription, o: RenewalInvoiceOutput, r: Result<(), BillingError>, fin: R) -> bool {
    exists|aa: Result<(), BillingError>|
        #[trigger] s.advance_subscription_period_answer(sub.id@, o.new_period_end as int, aa) && match aa {
            Err(e) => r == Err::<(), BillingError>(e) && fin == s.after_advance_subscription_period(
                sub.id@,
                o.new_period_end as int,
                aa,
            ),
            Ok(_) => exists|charged: R|
                #[trigger] renewal_charged(
                    s.after_advance_subscription_period(sub.id@, o.new_period_end as int, aa),
                    sub,
                    o,
                    charged,
                ) && exists|da: Result<(), BillingError>|
                    #[trigger] charged.dispatch_subscription_renewed_side_effects_answer(sub, o, da) && match da {
                        Err(e) => r == Err::<(), BillingError>(e) && fin
                            == charged.after_dispatch_subscription_renewed_side_effects(sub, o, da),
                        Ok(_) => r is Ok && renewal_recorded(
                            charged.after_dispatch_subscription_renewed_side_effects(sub, o, da),
                            sub,
                            o,
                            fin,
                        ),
                    },
        }
}

/// The text of an optional string.
pub open spec fn opt_text(p: Option<String>) -> Option<Seq<char>> {
    match p {
        Some(t) => Some(t@),
        None => None,
    }
}

/// The follow-up of a charge answer, from the store `s` to the store `fin`: a success is
/// settled with the provider's reference, a permanent failure marks the method failed,
/// and any other answer leaves the store as it was.
pub open spec fn charge_followed_up<R: LifecycleRepository>(s: R, inv: Invoice, m: SavedPaymentMethod, res: ChargeResult, fin: R) -> bool {
    match res {
        ChargeResult::Success { provider_reference: p } => exists|sa: Result<(), BillingError>|
            #[trigger] s.settle_auto_charge_success_answer(inv, m, opt_text(p), sa) && fin
                == s.after_settle_auto_charge_success(inv, m, opt_text(p), sa),
        ChargeResult::PermanentFailure(_) => exists|a: Result<(), BillingError>|
            #[trigger] s.mark_payment_method_failed_answer(m.id@, a) && fin
                == s.after_mark_payment_method_failed(m.id@, a),
        _ => fin == s,
    }
}

/// Charging a renewal invoice, from the store `s` to the store `fin`: only when
/// something is still due on it (`renewal_charge_due`) the customer's default method is
/// asked for and, where there is one, charged once and the charge followed up;
/// otherwise no charge is made and the store is left as it was.
pub open spec fn renewal_charged<R: LifecycleRepository>(s: R, sub: Subscription, o: RenewalInvoiceOutput, fin: R) -> bool {
    if o.final_amount_due.wf() && o.final_amount_due.val() > 0 && o.invoice.status != InvoiceStatus::Paid {
        exists|ma: Result<Option<SavedPaymentMethod>, BillingError>|
            #[trigger] s.get_default_payment_method_answer(sub.customer_id@, ma) && match ma {
                Ok(Some(m)) => exists|ca: Result<ChargeResult, BillingError>|
                    #[trigger] s.try_auto_charge_answer(o.invoice, m, ca) && match ca {
                        Ok(res) => charge_followed_up(
                            s.after_try_auto_charge(o.invoice, m, ca),
                            o.invoice,
                            m,
                            res,
                            fin,
                        ),
                        Err(_) => fin == s.after_try_auto_charge(o.invoice, m, ca),
                    },
                _ => fin == s,
            }
    } else {
        fin == s
    }
}

/// The ledger event of a renewal of `sub` (see `renewal_sales_event`).
pub open spec fn is_renewal_event(ev: SalesEventSpec, sub: Subscription, invoice_id: String, total: Dec, invoice_number: String) -> bool {
    &&& ev.metadata@.len() == 1 && ev.metadata@[0].key@ == "invoice_number"@ && ev.metadata@[0].value
        == MetadataValue::Text(invoice_number)
    &&& ev.event_type@ == "subscription.renewed"@
    &&& ev.classification == SalesClassification::Recurring
    &&& ev.amount_subtotal == total
    &&& ev.amount_total == total
    &&& ev.amount_tax.val() == 0
    &&& ev.currency@ == "USD"@
    &&& ev.customer_id == Some(sub.customer_id)
    &&& ev.subscription_id == Some(sub.id)
    &&& ev.invoice_id == Some(invoice_id)
    &&& ev.payment_id is None
    &&& ev.source_table@ == "invoices"@
    &&& ev.source_id == invoice_id
}

/// The renewal's event was handed to the sales ledger, once, from the store `s` to the
/// store `fin`.
pub open spec fn renewal_recorded<R: LifecycleRepository>(s: R, sub: Subscription, o: RenewalInvoiceOutput, fin: R) -> bool {
    exists|ev: SalesEventSpec, a: Result<(), BillingError>|
        is_renewal_event(ev, sub, o.invoice.id, o.total, o.invoice_number) && #[trigger] s.emit_sales_event_answer(ev, a)
            && fin == s.after_emit_sales_event(ev, a)
}

/// The renewal of an invoice the store already has for the period: its amounts as
/// stored, under the plan's name, for a period ending at `end`.
pub open spec fn output_of_existing(o: RenewalInvoiceOutput, inv: Invoice, plan: PricingPlan, end: int) -> bool {
    &&& o.invoice == inv
    &&& o.final_amount_due == inv.amount_due
    &&& o.total == inv.total
    &&& o.invoice_number@ == inv.invoice_number@
    &&& o.plan_name@ == plan.name@
    &&& o.new_period_end == end
}

/// What renewing `sub` at `now` gives, from the store `s` to the store `fin`: its plan
/// decides the new period end (one cycle on); the renewal invoice is the one the store
/// has for the period, else the one it makes; then `renewed_with`. Nothing is written
/// before the invoice is decided. Charging the invoice does not decide the outcome.
pub open spec fn renewal_outcome<R: LifecycleRepository>(s: R, sub: Subscription, now: int, r: Result<(), BillingError>, fin: R) -> bool {
    exists|pa: Result<PricingPlan, BillingError>|
        #[trigger] s.find_plan_answer(sub.plan_id@, pa) && match pa {
            Err(e) => r == Err::<(), BillingError>(e) && fin == s,
            Ok(plan) => match months_later(sub.current_period_end as int, cycle_months(plan.billing_cycle) as int) {
                None => (r matches Err(BillingError::Internal(_))) && fin == s,
                Some(end) => exists|xa: Result<Option<Invoice>, BillingError>|
                    #[trigger] s.find_existing_renewal_invoice_answer(sub, sub.current_period_end as int, xa)
                        && match xa {
                        Err(e) => r == Err::<(), BillingError>(e) && fin == s,
                        Ok(Some(inv)) => exists|o: RenewalInvoiceOutput|
                            output_of_existing(o, inv, plan, end) && #[trigger] renewed_with(s, sub, o, r, fin),
                        Ok(None) => exists|ea: Result<Option<RenewalInvoiceOutput>, BillingError>|
                            #[trigger] s.ensure_renewal_invoice_answer(sub, now, false, ea) && match ea {
                                Err(e) => r == Err::<(), BillingError>(e) && fin
                                    == s.after_ensure_renewal_invoice(sub, now, false, ea),
                                Ok(None) => (r matches Err(BillingError::Internal(_))) && fin
                                    == s.after_ensure_renewal_invoice(sub, now, false, ea),
                                Ok(Some(o)) => renewed_with(
                                    s.after_ensure_renewal_invoice(sub, now, false, ea),
                                    sub,
                                    o,
                                    r,
                                    fin,
                                ),
                            },
                    },
            },
        }
}

/// A renewal run over the first `results.len()` of `subs`: `states[i]` is the store
/// before subscription `i`, whose renewal gave `results[i]`.
pub open spec fn renew_run<R: LifecycleRepository>(subs: Seq<Subscription>, now: int, results: Seq<Result<(), BillingError>>, states: Seq<R>) -> bool {
    &&& results.len() <= subs.len()
    &&& states.len() == results.len() + 1
    &&& forall|i: int| #![trigger subs[i]]
        0 <= i < results.len() ==> renewal_outcome(states[i], subs[i], now, results[i], states[i + 1])
}

/// How many renewals succeeded.
pub open spec fn renewed_count(results: Seq<Result<(), BillingError>>) -> int
    decreases results.len(),
{
    if results.len() == 0 {
        0
    } else {
        renewed_count(results.drop_last()) + if results.last() is Ok {
            1int
        } else {
            0int
        }
    }
}

/// The failure lines of a renewal run, in order.
pub open spec fn renew_errors(subs: Seq<Subscription>, results: Seq<Result<(), BillingError>>) -> Seq<Seq<char>>
    decreases results.len(),
{
    if results.len() == 0 {
        Seq::empty()
    } else {
        let prev = renew_errors(subs, results.drop_last());
        if results.last() is Err {
            prev.push(failure_text(subs[results.len() - 1].id@, error_message(results.last()->Err_0)))
        } else {
            prev
        }
    }
}

/// What renewing at `now` gives, from the store `s` to the store `fin`, over the
/// subscriptions the store lists as renewable: each renewed once in turn, as many
/// invoices as renewals, and the failures in order.
pub open spec fn renewals_outcome<R: LifecycleRepository>(s: R, now: int, r: Result<(u64, u64, Vec<String>), BillingError>, fin: R) -> bool {
    exists|a: Result<Vec<Subscription>, BillingError>|
        #[trigger] s.list_renewable_subscriptions_answer(now, a) && match a {
            Err(e) => r == Err::<(u64, u64, Vec<String>), BillingError>(e) && fin == s,
            Ok(subs) => exists|results: Seq<Result<(), BillingError>>, states: Seq<R>| {
                &&& #[trigger] renew_run(subs@, now, results, states)
                &&& results.len() == subs@.len()
                &&& states[0] == s
                &&& states[results.len() as int] == fin
                &&& r matches Ok(t) && t.0 == t.1 && t.0 == renewed_count(results) && lines_are(
                    t.2@,
                    renew_errors(subs@, results),
                )
            },
        }
}

/// The failures `errors` are those of `pre` followed by those of `ren`.
pub open spec fn errors_joined(errors: Seq<String>, pre: Seq<String>, ren: Seq<String>) -> bool {
    &&& errors.len() == pre.len() + ren.len()
    &&& forall|k: int| 0 <= k < pre.len() ==> errors[k] == #[trigger] pre[k]
    &&& forall|k: int| 0 <= k < ren.len() ==> errors[pre.len() + k]@ == (#[trigger] ren[k])@
}

/// A full lifecycle run at `now` that completed with `res`: the four steps in turn,
/// each from the store the one before left, each count as its own outcome gives it.
pub open spec fn lifecycle_completed<R: LifecycleRepository>(s: R, now: int, res: LifecycleResult, fin: R) -> bool {
    exists|s1: R, s2: R, s3: R, pre: Vec<String>, ren: Vec<String>| {
        &&& #[trigger] trials_outcome(s, now, Ok(res.trials_converted), s1)
        &&& #[trigger] cancellations_outcome(s1, now, Ok(res.canceled), s2)
        &&& #[trigger] pregen_outcome(s2, now, Ok((res.pre_generated, pre)), s3)
        &&& #[trigger] renewals_outcome(s3, now, Ok((res.renewed, res.invoices_generated, ren)), fin)
        &&& errors_joined(res.errors@, pre@, ren@)
    }
}

/// What a full lifecycle run at `now` gives, from the store `s` to the store `fin`: the
/// steps in turn, each from the store the one before left, each count as its own outcome
/// gives it, and the failures of pre-generation followed by those of renewal; a run that
/// fails stopped at the first step that failed.
pub open spec fn lifecycle_outcome<R: LifecycleRepository>(s: R, now: int, r: Result<LifecycleResult, BillingError>, fin: R) -> bool {
    match r {
        Ok(res) => lifecycle_completed(s, now, res, fin),
        Err(e) => {
            ||| trials_outcome(s, now, Err(e), fin)
            ||| exists|n: u64, s1: R| #[trigger] trials_outcome(s, now, Ok(n), s1) && {
                ||| cancellations_outcome(s1, now, Err(e), fin)
                ||| exists|c: u64, s2: R| #[trigger] cancellations_outcome(s1, now, Ok(c), s2) && {
                    ||| pregen_outcome(s2, now, Err(e), fin)
                    ||| exists|p: (u64, Vec<String>), s3: R|
                        #[trigger] pregen_outcome(s2, now, Ok(p), s3) && renewals_outcome(s3, now, Err(e), fin)
                }
            }
        },
    }
}

/// The MRR movements of the transitions `ts` recorded one after another: `states[i]` is
/// the store before transition `i`.
pub open spec fn movements_recorded<R: LifecycleRepository>(ts: Seq<SubscriptionTransition>, trigger: Seq<char>, states: Seq<R>) -> bool {
    &&& states.len() == ts.len() + 1
    &&& forall|i: int| #![trigger ts[i]]
        0 <= i < ts.len() ==> mrr_recorded(states[i], ts[i].before, ts[i].after, trigger, states[i + 1])
}

/// A run that changes subscriptions in storage, from the store `s` (after the change) to
/// the store `fin`: it gives the number of transitions made, and records the MRR movement
/// of each in turn under `trigger`.
pub open spec fn transitions_outcome<R: LifecycleRepository>(s: R, answer: Result<Vec<SubscriptionTransition>, BillingError>, trigger: Seq<char>, r: Result<u64, BillingError>, fin: R) -> bool {
    match answer {
        Ok(ts) => r == Ok::<u64, BillingError>(ts@.len() as u64) && exists|states: Seq<R>|
            #[trigger] movements_recorded(ts@, trigger, states) && states[0] == s && states[ts@.len() as int]
                == fin,
        Err(e) => r == Err::<u64, BillingError>(e) && fin == s,
    }
}

/// What converting the expired trials at `now` gives: the number the store converted.
pub open spec fn trials_outcome<R: LifecycleRepository>(s: R, now: int, r: Result<u64, BillingError>, fin: R) -> bool {
    exists|a: Result<Vec<SubscriptionTransition>, BillingError>|
        #[trigger] s.convert_expired_trials_answer(now, a) && transitions_outcome(
            s.after_convert_expired_trials(now, a),
            a,
            "lifecycle_trial_convert"@,
            r,
            fin,
        )
}

/// What canceling at period end at `now` gives: the number the store canceled.
pub open spec fn cancellations_outcome<R: LifecycleRepository>(s: R, now: int, r: Result<u64, BillingError>, fin: R) -> bool {
    exists|a: Result<Vec<SubscriptionTransition>, BillingError>|
        #[trigger] s.cancel_at_period_end_answer(now, a) && transitions_outcome(
            s.after_cancel_at_period_end(now, a),
            a,
            "lifecycle_cancel_at_period_end"@,
            r,
            fin,
        )
}

/// The plan amount a subscription counts with for MRR.
pub fn subscription_mrr<R: LifecycleRepository>(repo: &R, sub: &Subscription) -> (r: Result<Dec, BillingError>)
    ensures
        r matches Ok(d) ==> d.wf(),
        mrr_outcome(*repo, *sub, r),
{
    let plan = repo.find_plan(sub.plan_id.as_str())?;
    let amount = repo.plan_amount(&plan, sub.quantity)?;
    if !amount.is_valid() {
        return Err(crate::error::overflow());
    }
    Ok(amount)
}

/// Records the MRR movement of a subscription change (see `mrr_recorded`); a failure to
/// price either side, or to record, leaves the change unrecorded.
pub fn emit_mrr_change_event<R: LifecycleRepository>(repo: &mut R, before: &Subscription, after: &Subscription, trigger: &str)
    ensures
        mrr_recorded(*old(repo), *before, *after, trigger@, *final(repo)),
{
    let ghost s = *repo;
    let old_mrr = match subscription_mrr(repo, before) {
        Ok(v) => v,
        Err(e) => {
            proof {
                assert(mrr_outcome(s, *before, Err(e)));
            }
            return;
        },
    };
    let new_mrr = match subscription_mrr(repo, after) {
        Ok(v) => v,
        Err(e) => {
            proof {
                assert(mrr_outcome(s, *before, Ok(old_mrr)));
                assert(mrr_outcome(s, *after, Err(e)));
            }
            return;
        },
    };
    let change = mrr_change_event(before, after, &old_mrr, &new_mrr, trigger);
    proof {
        assert(mrr_outcome(s, *before, Ok(old_mrr)));
        assert(mrr_outcome(s, *after, Ok(new_mrr)));
        assert(mrr_event_outcome(*before, *after, old_mrr, new_mrr, trigger@, change));
    }
    if let Ok(Some(event)) = change {
        let ghost ev = event;
        let emitted = repo.emit_sales_event(event);
        proof {
            assert(s.emit_sales_event_answer(ev, emitted));
        }
    }
}

/// Records the MRR movement of each transition in turn, under `trigger`.
fn record_movements<R: LifecycleRepository>(repo: &mut R, transitions: &Vec<SubscriptionTransition>, trigger: &str)
    ensures
        exists|states: Seq<R>|
            #[trigger] movements_recorded(transitions@, trigger@, states) && states[0] == *old(repo)
                && states[transitions@.len() as int] == *final(repo),
{
    let ghost mut states: Seq<R> = seq![*repo];
    let mut i: usize = 0;
    while i < transitions.len()
        invariant
            i <= transitions.len(),
            states.len() == i + 1,
            states[0] == *old(repo),
            states[i as int] == *repo,
            forall|j: int| #![trigger transitions@[j]]
                0 <= j < i ==> mrr_recorded(states[j], transitions@[j].before, transitions@[j].after, trigger@, states[j + 1]),
        decreases transitions.len() - i,
    {
        let ghost before_states = states;
        emit_mrr_change_event(repo, &transitions[i].before, &transitions[i].after, trigger);
        proof {
            states = states.push(*repo);
            assert forall|j: int| #![trigger transitions@[j]]
                0 <= j < i + 1 implies mrr_recorded(
                states[j],
                transitions@[j].before,
                transitions@[j].after,
                trigger@,
                states[j + 1],
            ) by {
                if j < i {
                    assert(states[j] == before_states[j]);
                    assert(states[j + 1] == before_states[j + 1]);
                }
            }
        }
        i = i + 1;
    }
    proof {
        assert(movements_recorded(transitions@, trigger@, states));
    }
}

/// Converts expired trials; every conversion is a possible MRR movement. Gives the
/// number converted.
pub fn convert_expired_trials<R: LifecycleRepository>(repo: &mut R, now: i64) -> (r: Result<u64, BillingError>)
    ensures
        trials_outcome(*old(repo), now as int, r, *final(repo)),
{
    let answer = repo.convert_expired_trials(now);
    let ghost a = answer;
    let ghost s1 = *repo;
    match answer {
        Ok(transitions) => {
            record_movements(repo, &transitions, "lifecycle_trial_convert");
            let r = Ok(transitions.len() as u64);
            proof {
                assert(transitions_outcome(s1, a, "lifecycle_trial_convert"@, r, *repo));
            }
            r
        },
        Err(e) => Err(e),
    }
}

/// Cancels subscriptions whose period ended with a cancellation pending; gives the
/// number canceled.
pub fn cancel_at_period_end<R: LifecycleRepository>(repo: &mut R, now: i64) -> (r: Result<u64, BillingError>)
    ensures
        cancellations_outcome(*old(repo), now as int, r, *final(repo)),
{
    let answer = repo.cancel_at_period_end(now);
    let ghost a = answer;
    let ghost s1 = *repo;
    match answer {
        Ok(transitions) => {
            record_movements(repo, &transitions, "lifecycle_cancel_at_period_end");
            let r = Ok(transitions.len() as u64);
            proof {
                assert(transitions_outcome(s1, a, "lifecycle_cancel_at_period_end"@, r, *repo));
            }
            r
        },
        Err(e) => Err(e),
    }
}

/// Pre-generates the renewal invoices that are due (see `pre_generation_due`) among the
/// subscriptions ending within the largest lead window; the others are left alone.
/// Gives how many were made and the failures.
pub fn pre_generate_upcoming_invoices<R: LifecycleRepository>(repo: &mut R, now: i64) -> (r: Result<
    (u64, Vec<String>),
    BillingError,
>)
    requires
        instant_ok(now),
    ensures
        pregen_outcome(*old(repo), now as int, r, *final(repo)),
{
    let window_end = now + MAX_PRE_RENEWAL_INVOICE_DAYS * 86400;
    let subs = repo.list_pre_generatable_subscriptions(now, window_end)?;
    let ghost s0 = *repo;
    let mut result = LifecycleResult::new();
    let ghost mut answers: Seq<Result<Option<RenewalInvoiceOutput>, BillingError>> = Seq::empty();
    let ghost mut states: Seq<R> = seq![*repo];
    let mut i: usize = 0;
    while i < subs.len()
        invariant
            instant_ok(now),
            i <= subs.len(),
            answers.len() == i,
            result.pre_generated + result.errors@.len() <= i,
            result.pre_generated == pregen_made(subs@, now as int, answers),
            lines_are(result.errors@, pregen_errors(subs@, now as int, answers)),
            pregen_run(subs@, now as int, answers, states),
            states[0] == s0,
            states[i as int] == *repo,
        decreases subs.len() - i,
    {
        let sub = &subs[i];
        let ghost before = answers;
        let ghost before_states = states;
        let ghost before_errors = result.errors@;
        let ghost s_i = *repo;
        if pre_generation_due(sub, now) {
            let answer = repo.ensure_renewal_invoice(sub, now, true);
            let outcome: Result<bool, String> = match &answer {
                Ok(Some(_)) => Ok(true),
                Ok(None) => Ok(false),
                Err(e) => Err(e.message()),
            };
            result.record_pre_generation(&sub.id, &outcome);
            proof {
                answers = answers.push(answer);
            }
        } else {
            proof {
                answers = answers.push(Ok(None));
            }
        }
        proof {
            states = states.push(*repo);
            assert(answers.drop_last() =~= before);
            assert(pregen_step(s_i, subs@[i as int], now as int, answers[i as int], *repo));
            assert forall|j: int| #![trigger subs@[j]]
                0 <= j < answers.len() implies pregen_step(
                states[j],
                subs@[j],
                now as int,
                answers[j],
                states[j + 1],
            ) by {
                if j < i {
                    assert(states[j] == before_states[j]);
                    assert(states[j + 1] == before_states[j + 1]);
                    assert(answers[j] == before[j]);
                }
            }
            assert forall|k: int| 0 <= k < result.errors@.len() implies #[trigger] result.errors@[k]@
                == pregen_errors(subs@, now as int, answers)[k] by {
                if k < before_errors.len() {
                    assert(result.errors@[k] == before_errors[k]);
                }
            }
        }
        i = i + 1;
    }
    Ok((result.pre_generated, result.errors))
}

/// Renews one subscription whose period has ended: finds or creates the renewal
/// invoice of the period, advances the period, charges the saved default method when
/// something is still due (settling or marking the method failed as the charge answers),
/// dispatches the renewal notices and records the renewal in the ledger.
pub fn renew_single_subscription<R: LifecycleRepository>(repo: &mut R, sub: &Subscription, now: i64) -> (r:
    Result<(), BillingError>)
    ensures
        renewal_outcome(*old(repo), *sub, now as int, r, *final(repo)),
{
    let ghost s0 = *repo;
    let plan = repo.find_plan(sub.plan_id.as_str())?;
    let new_period_end = match advance_period(sub.current_period_end, plan.billing_cycle) {
        Some(t) => t,
        None => {
            return Err(crate::error::internal("billing period end out of range"));
        },
    };
    let existing = repo.find_existing_renewal_invoice(sub, sub.current_period_end)?;
    let ghost found = existing;
    let output = match existing {
        Some(existing) => RenewalInvoiceOutput {
            final_amount_due: existing.amount_due,
            total: existing.total,
            invoice_number: existing.invoice_number.clone(),
            invoice: existing,
            plan_name: plan.name.clone(),
            new_period_end,
        },
        None => {
            let made = repo.ensure_renewal_invoice(sub, now, false);
            proof {
                assert(s0.ensure_renewal_invoice_answer(*sub, now as int, false, made));
            }
            match made {
                Ok(Some(o)) => o,
                Ok(None) => {
                    let mut v: Vec<char> = Vec::new();
                    extend_str(&mut v, "renewal invoice creation returned no invoice for subscription ");
                    extend_str(&mut v, sub.id.as_str());
                    return Err(BillingError::Internal(string_of(&v)));
                },
                Err(e) => {
                    return Err(e);
                },
            }
        },
    };
    let ghost s1 = *repo;
    proof {
        assert(s0.find_plan_answer(sub.plan_id@, Ok(plan)));
        assert(s0.find_existing_renewal_invoice_answer(*sub, sub.current_period_end as int, Ok(found)));
        match found {
            Some(inv) => {
                assert(output_of_existing(output, inv, plan, new_period_end as int));
                assert(s1 == s0);
            },
            None => {
                assert(s0.ensure_renewal_invoice_answer(*sub, now as int, false, Ok(Some(output))));
                assert(s1 == s0.after_ensure_renewal_invoice(*sub, now as int, false, Ok(Some(output))));
            },
        }
    }
    let advanced = repo.advance_subscription_period(sub.id.as_str(), output.new_period_end);
    if let Err(e) = advanced {
        proof {
            assert(renewed_with(s1, *sub, output, Err(e), *repo));
        }
        return Err(e);
    }
    let ghost s2 = *repo;
    charge_renewal(repo, sub, &output);
    let ghost s3 = *repo;
    let invoice = &output.invoice;
    let dispatched = repo.dispatch_subscription_renewed_side_effects(sub, &output);
    let ghost da = dispatched;
    if let Err(e) = dispatched {
        proof {
            assert(renewal_charged(s2, *sub, output, s3));
            assert(s3.dispatch_subscription_renewed_side_effects_answer(*sub, output, Err(e)));
            assert(renewed_with(s1, *sub, output, Err(e), *repo));
        }
        return Err(e);
    }
    let ghost s4 = *repo;
    let event = renewal_sales_event(sub, &invoice.id, &output.total, &output.invoice_number);
    let ghost ev = event;
    let emitted = repo.emit_sales_event(event);
    proof {
        assert(is_renewal_event(ev, *sub, output.invoice.id, output.total, output.invoice_number));
        assert(s4.emit_sales_event_answer(ev, emitted));
        assert(renewal_recorded(s4, *sub, output, *repo));
        assert(renewal_charged(s2, *sub, output, s3));
        assert(s3.dispatch_subscription_renewed_side_effects_answer(*sub, output, da));
        assert(renewed_with(s1, *sub, output, Ok(()), *repo));
    }
    Ok(())
}

/// Charges a renewal invoice where something is still due on it, and only then (see
/// `renewal_charged`); the charge's failures do not stop the renewal.
fn charge_renewal<R: LifecycleRepository>(repo: &mut R, sub: &Subscription, output: &RenewalInvoiceOutput)
    ensures
        renewal_charged(*old(repo), *sub, *output, *final(repo)),
{
    let ghost s0 = *repo;
    let invoice = &output.invoice;
    if output.final_amount_due.is_valid() && renewal_charge_due(&output.final_amount_due, invoice.status) {
        let found = repo.get_default_payment_method(sub.customer_id.as_str());
        if let Ok(Some(method)) = &found {
            let charged = repo.try_auto_charge(invoice, method);
            let ghost answer = charged;
            let ghost s1 = *repo;
            if let Ok(result) = charged {
                let ghost res = result;
                match charge_follow_up(result) {
                    ChargeFollowUp::Settle(reference) => {
                        let r = match &reference {
                            Some(s) => Some(s.as_str()),
                            None => None,
                        };
                        let settled = repo.settle_auto_charge_success(invoice, method, r);
                        proof {
                            assert(s1.settle_auto_charge_success_answer(*invoice, *method, opt_text(reference), settled));
                            assert(charge_followed_up(s1, *invoice, *method, res, *repo));
                        }
                    },
                    ChargeFollowUp::MarkMethodFailed => {
                        let marked = repo.mark_payment_method_failed(method.id.as_str());
                        proof {
                            assert(s1.mark_payment_method_failed_answer(method.id@, marked));
                            assert(charge_followed_up(s1, *invoice, *method, res, *repo));
                        }
                    },
                    ChargeFollowUp::Nothing => {},
                }
            }
            proof {
                assert(s0.try_auto_charge_answer(*invoice, *method, answer));
            }
        }
        proof {
            assert(s0.get_default_payment_method_answer(sub.customer_id@, found));
        }
    }
}

/// Renews every renewable subscription in turn; each renewal counts once as renewed and
/// once as an invoice generated, each failure is kept as `sub <id>: <message>`.
pub fn renew_active_subscriptions<R: LifecycleRepository>(repo: &mut R, now: i64) -> (r: Result<
    (u64, u64, Vec<String>),
    BillingError,
>)
    ensures
        r matches Ok(t) ==> t.0 == t.1,
        renewals_outcome(*old(repo), now as int, r, *final(repo)),
{
    let subs = repo.list_renewable_subscriptions(now)?;
    let ghost s0 = *repo;
    let mut result = LifecycleResult::new();
    let ghost mut results: Seq<Result<(), BillingError>> = Seq::empty();
    let ghost mut states: Seq<R> = seq![*repo];
    let mut i: usize = 0;
    while i < subs.len()
        invariant
            i <= subs.len(),
            results.len() == i,
            result.renewed == result.invoices_generated,
            result.renewed + result.errors@.len() == i,
            result.renewed == renewed_count(results),
            lines_are(result.errors@, renew_errors(subs@, results)),
            renew_run(subs@, now as int, results, states),
            states[0] == s0,
            states[i as int] == *repo,
        decreases subs.len() - i,
    {
        let sub = &subs[i];
        let ghost before = results;
        let ghost before_states = states;
        let ghost before_errors = result.errors@;
        let renewal = renew_single_subscription(repo, sub, now);
        let outcome: Result<(), String> = match &renewal {
            Ok(()) => Ok(()),
            Err(e) => Err(e.message()),
        };
        result.record_renewal(&sub.id, &outcome);
        proof {
            results = results.push(renewal);
            states = states.push(*repo);
            assert(results.drop_last() =~= before);
            assert forall|j: int| #![trigger subs@[j]]
                0 <= j < results.len() implies renewal_outcome(
                states[j],
                subs@[j],
                now as int,
                results[j],
                states[j + 1],
            ) by {
                if j < i {
                    assert(states[j] == before_states[j]);
                    assert(states[j + 1] == before_states[j + 1]);
                    assert(results[j] == before[j]);
                }
            }
            assert forall|k: int| 0 <= k < result.errors@.len() implies #[trigger] result.errors@[k]@
                == renew_errors(subs@, results)[k] by {
                if k < before_errors.len() {
                    assert(result.errors@[k] == before_errors[k]);
                }
            }
        }
        i = i + 1;
    }
    Ok((result.renewed, result.invoices_generated, result.errors))
}

/// One full lifecycle run at `now`: trials, cancellations, pre-generation, renewals,
/// each from the store the one before left; the run stops at the first step that fails.
/// Every renewal counts as exactly one generated invoice.
pub fn run_full_lifecycle<R: LifecycleRepository>(repo: &mut R, now: i64) -> (r: Result<LifecycleResult, BillingError>)
    requires
        instant_ok(now),
    ensures
        r matches Ok(res) ==> res.invoices_generated == res.renewed,
        lifecycle_outcome(*old(repo), now as int, r, *final(repo)),
{
    let ghost s0 = *repo;
    let mut result = LifecycleResult::new();
    let trials = convert_expired_trials(repo, now);
    let ghost s1 = *repo;
    let ghost t = trials;
    result.trials_converted = match trials {
        Ok(n) => n,
        Err(e) => {
            return Err(e);
        },
    };
    proof {
        assert(trials_outcome(s0, now as int, t, s1));
    }
    let canceled = cancel_at_period_end(repo, now);
    let ghost s2 = *repo;
    let ghost c = canceled;
    result.canceled = match canceled {
        Ok(n) => n,
        Err(e) => {
            proof {
                assert(cancellations_outcome(s1, now as int, Err(e), s2));
            }
            return Err(e);
        },
    };
    proof {
        assert(cancellations_outcome(s1, now as int, c, s2));
    }
    let pregen = pre_generate_upcoming_invoices(repo, now);
    let ghost s3 = *repo;
    let ghost p = pregen;
    let (pre_generated, pregen_errors) = match pregen {
        Ok(x) => x,
        Err(e) => {
            proof {
                assert(pregen_outcome(s2, now as int, Err(e), s3));
            }
            return Err(e);
        },
    };
    proof {
        assert(pregen_outcome(s2, now as int, p, s3));
    }
    result.pre_generated = pre_generated;
    let ghost pre = pregen_errors;
    let mut errors = pregen_errors;
    let renewals = renew_active_subscriptions(repo, now);
    let ghost q = renewals;
    let (renewed, invoiced, renew_errors) = match renewals {
        Ok(x) => x,
        Err(e) => {
            proof {
                assert(renewals_outcome(s3, now as int, Err(e), *repo));
            }
            return Err(e);
        },
    };
    proof {
        assert(renewals_outcome(s3, now as int, q, *repo));
    }
    result.renewed = renewed;
    result.invoices_generated = invoiced;
    let mut j: usize = 0;
    while j < renew_errors.len()
        invariant
            j <= renew_errors.len(),
            errors@.len() == pre@.len() + j,
            forall|k: int| 0 <= k < pre@.len() ==> errors@[k] == #[trigger] pre@[k],
            forall|k: int| 0 <= k < j ==> errors@[pre@.len() + k]@ == (#[trigger] renew_errors@[k])@,
        decreases renew_errors.len() - j,
    {
        errors.push(renew_errors[j].clone());
        j = j + 1;
    }
    result.errors = errors;
    proof {
        assert(trials_outcome(s0, now as int, Ok(result.trials_converted), s1));
        assert(cancellations_outcome(s1, now as int, Ok(result.canceled), s2));
        assert(pregen_outcome(s2, now as int, Ok((result.pre_generated, pre)), s3));
        assert(renewals_outcome(s3, now as int, Ok((result.renewed, result.invoices_generated, renew_errors)), *repo));
        assert(errors_joined(result.errors@, pre@, renew_errors@));
        assert(lifecycle_completed(s0, now as int, result, *repo));
    }
    Ok(result)
}

/// How many of the first `k` answers gave an invoice.
pub open spec fn invoices_made(answers: Seq<Result<Option<RenewalInvoiceOutput>, BillingError>>, k: int) -> int
    decreases k,
{
    if k <= 0 {
        0
    } else {
        invoices_made(answers, k - 1) + if answers[k - 1] matches Ok(Some(_)) {
            1int
        } else {
            0int
        }
    }
}

/// The renewal invoices made sure of for the first `answers.len()` subscriptions:
/// `states[i]` is the store before subscription `i`, whose answer is `answers[i]`; each
/// is one call, issued with its notice, and nothing else is written.
pub open spec fn pending_invoices<R: LifecycleRepository>(subs: Seq<Subscription>, now: int, answers: Seq<Result<Option<RenewalInvoiceOutput>, BillingError>>, states: Seq<R>) -> bool {
    &&& answers.len() <= subs.len()
    &&& states.len() == answers.len() + 1
    &&& forall|i: int| #![trigger subs[i]]
        0 <= i < answers.len() ==> states[i].ensure_renewal_invoice_answer(subs[i], now, true, answers[i])
            && states[i + 1] == states[i].after_ensure_renewal_invoice(subs[i], now, true, answers[i])
}

/// Generates the renewal invoices of the subscriptions due for renewal at `now` without
/// advancing their periods: each gets its renewal invoice made sure of (a failure for
/// one subscription does not stop the others), and nothing else is written; gives how
/// many invoices came back.
pub fn generate_pending_invoices<R: LifecycleRepository>(repo: &mut R, now: i64) -> (r: Result<u64, BillingError>)
    requires
        instant_ok(now),
    ensures
        r matches Ok(n) ==> exists|
            subs: Vec<Subscription>,
            answers: Seq<Result<Option<RenewalInvoiceOutput>, BillingError>>,
            states: Seq<R>,
        | {
            &&& #[trigger] old(repo).list_renewable_subscriptions_answer(now as int, Ok(subs))
            &&& #[trigger] pending_invoices(subs@, now as int, answers, states)
            &&& answers.len() == subs@.len()
            &&& states[0] == *old(repo)
            &&& states[answers.len() as int] == *final(repo)
            &&& n == invoices_made(answers, answers.len() as int)
        },
        r matches Err(e) ==> old(repo).list_renewable_subscriptions_answer(now as int, Err(e))
            && *final(repo) == *old(repo),
{
    let subs = repo.list_renewable_subscriptions(now)?;
    let ghost s0 = *repo;
    let ghost mut answers: Seq<Result<Option<RenewalInvoiceOutput>, BillingError>> = Seq::empty();
    let ghost mut states: Seq<R> = seq![*repo];
    let mut made: u64 = 0;
    let mut i: usize = 0;
    while i < subs.len()
        invariant
            i <= subs.len(),
            made <= i,
            answers.len() == i,
            made == invoices_made(answers, i as int),
            pending_invoices(subs@, now as int, answers, states),
            states[0] == s0,
            states[i as int] == *repo,
        decreases subs.len() - i,
    {
        let ghost s_i = *repo;
        let ghost before_states = states;
        let answer = repo.ensure_renewal_invoice(&subs[i], now, true);
        if let Ok(Some(_)) = &answer {
            made = made + 1;
        }
        let ghost before = answers;
        proof {
            answers = answers.push(answer);
            states = states.push(*repo);
            assert(answers.subrange(0, i as int) =~= before);
            lemma_invoices_made_prefix(answers, before, i as int);
            assert forall|j: int| #![trigger subs@[j]]
                0 <= j < i + 1 implies states[j].ensure_renewal_invoice_answer(subs@[j], now as int, true, answers[j])
                    && states[j + 1] == states[j].after_ensure_renewal_invoice(subs@[j], now as int, true, answers[j]) by {
                if j < i {
                    assert(answers[j] == before[j]);
                    assert(states[j] == before_states[j]);
                    assert(states[j + 1] == before_states[j + 1]);
                }
            }
        }
        i = i + 1;
    }
    proof {
        assert(pending_invoices(subs@, now as int, answers, states));
    }
    Ok(made)
}

proof fn lemma_invoices_made_prefix(
    a: Seq<Result<Option<RenewalInvoiceOutput>, BillingError>>,
    b: Seq<Result<Option<RenewalInvoiceOutput>, BillingError>>,
    k: int,
)
    requires
        0 <= k <= b.len(),
        k <= a.len(),
        forall|j: int| 0 <= j < k ==> a[j] == b[j],
    ensures
        invoices_made(a, k) == invoices_made(b, k),
    decreases k,
{
    if k > 0 {
        lemma_invoices_made_prefix(a, b, k - 1);
    }
}

} // verus!

verus! {

/// MRR movements: there is an event exactly when the effective MRR changes; growth is
/// always an expansion; churn is recorded only for a canceled subscription that drops
/// to zero from a positive MRR; every other drop is a contraction.
pub proof fn lemma_mrr_event_kinds(old_eff: int, new_eff: int, after: SubscriptionStatus)
    ensures
        spec_mrr_event_type(old_eff, new_eff, after) is None <==> old_eff == new_eff,
        new_eff > old_eff ==> spec_mrr_event_type(old_eff, new_eff, after) == Some("mrr_expanded"@),
        spec_mrr_event_type(old_eff, new_eff, after) == Some("mrr_churned"@) ==> after
            == SubscriptionStatus::Canceled && new_eff == 0 && old_eff > 0,
        new_eff < old_eff && !(new_eff == 0 && old_eff > 0 && after == SubscriptionStatus::Canceled)
            ==> spec_mrr_event_type(old_eff, new_eff, after) == Some("mrr_contracted"@),
{
    reveal_strlit("mrr_expanded");
    reveal_strlit("mrr_churned");
    reveal_strlit("mrr_contracted");
    assert(("mrr_expanded"@).len() == 12);
    assert(("mrr_churned"@).len() == 11);
    assert(("mrr_contracted"@).len() == 14);
}

/// The lead time of a renewal invoice is always between 0 and 90 days, and 7 days
/// when the subscription's metadata names none.
pub proof fn lemma_pre_renewal_days_bounded(sub: Subscription)
    ensures
        0 <= spec_pre_renewal_days(sub) <= 90,
        sub.meta_pre_renewal_days is Absent && sub.meta_pre_renewal_days_snake is Absent
            ==> spec_pre_renewal_days(sub) == 7,
{
}

} // verus!

verus! {

/// A trialing subscription whose trial has ended by `now` converts.
pub open spec fn spec_trial_expired(sub: Subscription, now: int) -> bool {
    sub.status == SubscriptionStatus::Trialing && (sub.trial_end matches Some(t) && t <= now)
}

pub fn trial_expired(sub: &Subscription, now: i64) -> (r: bool)
    ensures
        r == spec_trial_expired(*sub, now as int),
{
    sub.status == SubscriptionStatus::Trialing && match sub.trial_end {
        Some(t) => t <= now,
        None => false,
    }
}

/// A converted trial: active, with a first period from `now` to `period_end`, one
/// version later.
pub fn converted_trial(sub: &Subscription, now: i64, period_end: i64) -> (r: Subscription)
    requires
        sub.version < i32::MAX,
    ensures
        r.status == SubscriptionStatus::Active,
        r.current_period_start == now,
        r.current_period_end == period_end,
        r.version == sub.version + 1,
        r.id == sub.id && r.customer_id == sub.customer_id && r.plan_id == sub.plan_id,
        r.quantity == sub.quantity,
{
    Subscription {
        id: sub.id.clone(),
        customer_id: sub.customer_id.clone(),
        plan_id: sub.plan_id.clone(),
        status: SubscriptionStatus::Active,
        current_period_start: now,
        current_period_end: period_end,
        canceled_at: sub.canceled_at,
        cancel_at_period_end: sub.cancel_at_period_end,
        trial_end: sub.trial_end,
        quantity: sub.quantity,
        managed_by: sub.managed_by.clone(),
        version: sub.version + 1,
        meta_pre_renewal_days: sub.meta_pre_renewal_days,
        meta_pre_renewal_days_snake: sub.meta_pre_renewal_days_snake,
    }
}

/// An active subscription set to cancel at period end is canceled once its period has
/// ended.
pub open spec fn spec_cancellation_due(sub: Subscription, now: int) -> bool {
    sub.status == SubscriptionStatus::Active && sub.cancel_at_period_end && sub.current_period_end <= now
}

pub fn cancellation_due(sub: &Subscription, now: i64) -> (r: bool)
    ensures
        r == spec_cancellation_due(*sub, now as int),
{
    sub.status == SubscriptionStatus::Active && sub.cancel_at_period_end && sub.current_period_end
        <= now
}

/// A canceled subscription: canceled at `now`, one version later.
pub fn canceled_subscription(sub: &Subscription, now: i64) -> (r: Subscription)
    requires
        sub.version < i32::MAX,
    ensures
        r.status == SubscriptionStatus::Canceled,
        r.canceled_at == Some(now),
        r.version == sub.version + 1,
        r.id == sub.id && r.customer_id == sub.customer_id && r.plan_id == sub.plan_id,
        r.quantity == sub.quantity,
        r.current_period_end == sub.current_period_end,
{
    Subscription {
        id: sub.id.clone(),
        customer_id: sub.customer_id.clone(),
        plan_id: sub.plan_id.clone(),
        status: SubscriptionStatus::Canceled,
        current_period_start: sub.current_period_start,
        current_period_end: sub.current_period_end,
        canceled_at: Some(now),
        cancel_at_period_end: sub.cancel_at_period_end,
        trial_end: sub.trial_end,
        quantity: sub.quantity,
        managed_by: sub.managed_by.clone(),
        version: sub.version + 1,
        meta_pre_renewal_days: sub.meta_pre_renewal_days,
        meta_pre_renewal_days_snake: sub.meta_pre_renewal_days_snake,
    }
}

/// Subscriptions that an outside platform manages are left alone.
pub open spec fn spec_unmanaged(sub: Subscription) -> bool {
    match sub.managed_by {
        Some(m) => m@.len() == 0,
        None => true,
    }
}

/// A subscription is renewed once its period has ended, unless it is canceling or
/// managed elsewhere.
pub open spec fn spec_renewable(sub: Subscription, now: int) -> bool {
    sub.status == SubscriptionStatus::Active && !sub.cancel_at_period_end && sub.current_period_end
        <= now && spec_unmanaged(sub)
}

/// A subscription may get its renewal invoice early when its period ends within the
/// window after `now`.
pub open spec fn spec_pre_generatable(sub: Subscription, now: int, window_end: int) -> bool {
    sub.status == SubscriptionStatus::Active && !sub.cancel_at_period_end && now
        < sub.current_period_end <= window_end && spec_unmanaged(sub)
}

fn unmanaged(sub: &Subscription) -> (r: bool)
    ensures
        r == spec_unmanaged(*sub),
{
    match &sub.managed_by {
        Some(m) => m.as_str().unicode_len() == 0,
        None => true,
    }
}

pub fn renewable(sub: &Subscription, now: i64) -> (r: bool)
    ensures
        r == spec_renewable(*sub, now as int),
{
    sub.status == SubscriptionStatus::Active && !sub.cancel_at_period_end && sub.current_period_end
        <= now && unmanaged(sub)
}

pub fn pre_generatable(sub: &Subscription, now: i64, window_end: i64) -> (r: bool)
    ensures
        r == spec_pre_generatable(*sub, now as int, window_end as int),
{
    sub.status == SubscriptionStatus::Active && !sub.cancel_at_period_end && now
        < sub.current_period_end && sub.current_period_end <= window_end && unmanaged(sub)
}

/// A renewed subscription: the next period starts where the last ended.
pub fn advanced_subscription(sub: &Subscription, new_period_end: i64) -> (r: Subscription)
    requires
        sub.version < i32::MAX,
    ensures
        r.current_period_start == sub.current_period_end,
        r.current_period_end == new_period_end,
        r.version == sub.version + 1,
        r.status == sub.status,
        r.id == sub.id && r.customer_id == sub.customer_id && r.plan_id == sub.plan_id,
        r.quantity == sub.quantity,
{
    Subscription {
        id: sub.id.clone(),
        customer_id: sub.customer_id.clone(),
        plan_id: sub.plan_id.clone(),
        status: sub.status,
        current_period_start: sub.current_period_end,
        current_period_end: new_period_end,
        canceled_at: sub.canceled_at,
        cancel_at_period_end: sub.cancel_at_period_end,
        trial_end: sub.trial_end,
        quantity: sub.quantity,
        managed_by: sub.managed_by.clone(),
        version: sub.version + 1,
        meta_pre_renewal_days: sub.meta_pre_renewal_days,
        meta_pre_renewal_days_snake: sub.meta_pre_renewal_days_snake,
    }
}

/// A trial conversion never loses recurring revenue: the subscription did not count
/// before, so it either does not move MRR or expands it. A cancellation of a subscription
/// that counted a positive MRR is churn.
pub proof fn lemma_transitions_move_mrr(before: Subscription, mrr: Dec, cancel_from: SubscriptionStatus)
    requires
        before.status == SubscriptionStatus::Trialing,
        mrr.val() >= 0,
        spec_contributes_to_mrr(cancel_from),
        mrr.val() > 0,
    ensures
        spec_mrr_event_type(
            effective_mrr(before.status, mrr),
            effective_mrr(SubscriptionStatus::Active, mrr),
            SubscriptionStatus::Active,
        ) == Some("mrr_expanded"@),
        spec_mrr_event_type(
            effective_mrr(cancel_from, mrr),
            effective_mrr(SubscriptionStatus::Canceled, mrr),
            SubscriptionStatus::Canceled,
        ) == Some("mrr_churned"@),
{
}

} // verus!

verus! {

/// The totals of a renewal invoice after tax and customer credit.
#[derive(Clone, Copy, Debug)]
pub struct RenewalTotals {
    pub subtotal: Dec,
    pub tax: Dec,
    pub total: Dec,
    pub credits_applied: Dec,
    pub final_amount_due: Dec,
    /// Nothing is left due, so the invoice is paid.
    pub paid: bool,
}

/// Whether some amount of a renewal invoice leaves the decimal domain: the sum of the
/// lines, the total with tax, or what is left due after credit.
pub open spec fn renewal_totals_overflow(amounts: Seq<Dec>, tax: Dec, inclusive: bool, balance: Option<Dec>) -> bool {
    match crate::money::spec_sum(amounts) {
        None => true,
        Some(subtotal) => match spec_tax_total(subtotal, tax, inclusive) {
            None => true,
            Some(total) => spec_sub(total, spec_credit_to_apply(total, balance)) is None,
        },
    }
}

/// The totals of a renewal invoice: the subtotal sums its lines; the total adds the
/// resolved tax unless the tax is included in the prices; the customer's credit balance
/// pays what it can (see `renewal_settlement`). `None` where an amount overflows.
pub fn renewal_totals(
    lines: &Vec<InvoiceItemDraft>,
    tax_amount: &Dec,
    tax_inclusive: bool,
    balance: Option<Dec>,
) -> (r: Option<RenewalTotals>)
    requires
        crate::billing::invoices::items_wf(lines@),
        tax_amount.wf(),
        balance matches Some(b) ==> b.wf(),
    ensures
        r matches Some(t) ==> {
            &&& crate::money::spec_sum(crate::billing::invoices::item_amounts(lines@)) == Some(t.subtotal)
            &&& t.tax == *tax_amount
            &&& spec_tax_total(t.subtotal, *tax_amount, tax_inclusive) == Some(t.total)
            &&& t.credits_applied == spec_credit_to_apply(t.total, balance)
            &&& t.paid == (t.final_amount_due.val() <= 0)
            &&& spec_sub(t.total, t.credits_applied) == Some(t.final_amount_due)
            &&& exact_sub(t.total, t.credits_applied) is Some ==> t.final_amount_due.val() == t.total.val()
                - t.credits_applied.val()
        },
        r is None <==> renewal_totals_overflow(item_amounts(lines@), *tax_amount, tax_inclusive, balance),
{
    let mut amounts: Vec<Dec> = Vec::new();
    let mut i: usize = 0;
    while i < lines.len()
        invariant
            crate::billing::invoices::items_wf(lines@),
            i <= lines.len(),
            amounts@ == crate::billing::invoices::item_amounts(lines@.subrange(0, i as int)),
            crate::money::all_wf(amounts@),
        decreases lines.len() - i,
    {
        let ghost before = amounts@;
        amounts.push(lines[i].amount);
        proof {
            assert(crate::billing::invoices::item_amounts(lines@.subrange(0, i + 1)) =~= before.push(
                lines@[i as int].amount,
            ));
            assert(lines@[i as int].amount.wf());
        }
        i = i + 1;
    }
    proof {
        assert(lines@.subrange(0, lines@.len() as int) =~= lines@);
    }
    let subtotal = match crate::money::sum_decs(&amounts) {
        Some(s) => s,
        None => {
            return None;
        },
    };
    let total = match tax_total(&subtotal, tax_amount, tax_inclusive) {
        Some(t) => t,
        None => {
            return None;
        },
    };
    let settlement = match renewal_settlement(&total, balance) {
        Some(s) => s,
        None => {
            return None;
        },
    };
    Some(
        RenewalTotals {
            subtotal,
            tax: *tax_amount,
            total,
            credits_applied: settlement.credits_applied,
            final_amount_due: settlement.final_amount_due,
            paid: settlement.paid,
        },
    )
}

} // verus!
