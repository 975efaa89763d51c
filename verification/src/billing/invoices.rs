//! Invoices: drafts with subscription and discount lines, totals, tax, and edits.
use vstd::prelude::*;
use crate::error::{bad_request, not_found, overflow, owned, validation, BillingError};
use crate::models::{
    BillingCycle, Coupon, DiscountType, Invoice, InvoiceItem, InvoiceStatus, PricingPlan,
    Subscription,
};
use crate::money::{
    all_wf, checked_div, exact_add, dec_hundred, decimal_quotient, hundred, int_dec, spec_add, spec_mul,
    spec_neg, spec_round_dp, spec_sum, sum_decs, Dec,
};
use crate::text::{extend_str, string_of};

verus! {

#[derive(Clone, Debug)]
pub struct CreateInvoiceRequest {
    pub customer_id: String,
    pub subscription_id: Option<String>,
    pub due_at: Option<i64>,
    pub currency: Option<String>,
    pub notes: Option<String>,
    pub coupon_code: Option<String>,
    pub tax_rate: Option<Dec>,
}

#[derive(Clone, Debug)]
pub struct UpdateInvoiceRequest {
    pub status: Option<InvoiceStatus>,
    pub due_at: Option<i64>,
    pub notes: Option<String>,
    pub stripe_invoice_id: Option<String>,
    pub xendit_invoice_id: Option<String>,
    pub lemonsqueezy_order_id: Option<String>,
    /// Required for optimistic locking.
    pub version: i32,
}

#[derive(Clone, Debug)]
pub struct ListInvoicesFilter {
    pub status: Option<InvoiceStatus>,
    pub customer_id: Option<String>,
    /// When set, restrict results to invoices belonging to this customer (role isolation).
    pub role_customer_id: Option<String>,
}

#[derive(Clone, Debug)]
pub struct AddInvoiceItemRequest {
    pub description: String,
    pub quantity: Dec,
    pub unit_price: Dec,
    pub period_start: Option<i64>,
    pub period_end: Option<i64>,
}

#[derive(Clone, Debug)]
pub struct InvoiceView {
    pub invoice: Invoice,
    pub customer_name: Option<String>,
}

#[derive(Clone, Debug)]
pub struct InvoiceItemDraft {
    pub description: String,
    pub quantity: Dec,
    pub unit_price: Dec,
    pub amount: Dec,
    pub period_start: Option<i64>,
    pub period_end: Option<i64>,
}

#[derive(Clone, Debug)]
pub struct CreateInvoiceDraft {
    pub invoice_number: String,
    pub customer_id: String,
    pub subscription_id: Option<String>,
    pub due_at: Option<i64>,
    pub currency: String,
    pub notes: Option<String>,
    pub subtotal: Dec,
    pub tax: Dec,
    pub total: Dec,
    pub line_items: Vec<InvoiceItemDraft>,
    pub coupon_id_to_increment: Option<String>,
}

#[derive(Clone, Debug)]
pub struct UpdateInvoiceDraft {
    pub status: Option<InvoiceStatus>,
    pub due_at: Option<i64>,
    pub notes: Option<String>,
    pub stripe_invoice_id: Option<String>,
    pub xendit_invoice_id: Option<String>,
    pub lemonsqueezy_order_id: Option<String>,
    pub version: i32,
    pub issued_at: Option<i64>,
}

/// The name of a billing cycle, as it appears in line item descriptions.
pub open spec fn cycle_name(cycle: BillingCycle) -> Seq<char> {
    match cycle {
        BillingCycle::Monthly => "Monthly"@,
        BillingCycle::Quarterly => "Quarterly"@,
        BillingCycle::Yearly => "Yearly"@,
    }
}

pub fn format_cycle(cycle: BillingCycle) -> (r: &'static str)
    ensures
        r@ == cycle_name(cycle),
{
    match cycle {
        BillingCycle::Monthly => "Monthly",
        BillingCycle::Quarterly => "Quarterly",
        BillingCycle::Yearly => "Yearly",
    }
}

/// Whether a coupon has used up its redemptions.
pub open spec fn coupon_exhausted(c: Coupon) -> bool {
    match c.max_redemptions {
        Some(max) => c.times_redeemed >= max,
        None => false,
    }
}

/// A coupon can be redeemed unless it has reached its maximum redemptions.
pub fn validate_coupon(coupon: &Coupon) -> (r: Result<(), BillingError>)
    ensures
        r is Ok <==> !coupon_exhausted(*coupon),
        r matches Err(e) ==> e matches BillingError::BadRequest(m) && m@
            == "coupon has reached max redemptions"@,
{
    if let Some(max) = coupon.max_redemptions {
        if coupon.times_redeemed >= max {
            return Err(bad_request("coupon has reached max redemptions"));
        }
    }
    Ok(())
}

/// The discount a coupon grants on `subtotal`: a percentage rounded to cents
/// (`subtotal * value / 100`), or a fixed amount capped at the subtotal.
pub open spec fn spec_discount(kind: DiscountType, value: Dec, subtotal: Dec) -> Option<Dec> {
    match kind {
        DiscountType::Percentage => match spec_mul(subtotal, value) {
            Some(p) => match decimal_quotient(p, hundred()) {
                Some(q) => Some(spec_round_dp(q, 2)),
                None => None,
            },
            None => None,
        },
        DiscountType::FixedAmount => Some(
            if subtotal.val() < value.val() {
                subtotal
            } else {
                value
            },
        ),
    }
}

/// The discount of a coupon on a subtotal; `None` where the arithmetic overflows.
pub fn discount_amount(kind: DiscountType, value: &Dec, subtotal: &Dec) -> (r: Option<Dec>)
    requires
        value.wf(),
        subtotal.wf(),
    ensures
        r == spec_discount(kind, *value, *subtotal),
        r matches Some(d) ==> d.wf(),
{
    match kind {
        DiscountType::Percentage => {
            match subtotal.checked_mul(value) {
                Some(p) => {
                    let h = dec_hundred();
                    match checked_div(&p, &h) {
                        Some(q) => Some(q.round_dp(2)),
                        None => None,
                    }
                },
                None => None,
            }
        },
        DiscountType::FixedAmount => Some(value.min(subtotal)),
    }
}

/// The line that bills a subscription's plan for its current period.
pub fn subscription_line_item(plan: &PricingPlan, sub: &Subscription, amount: Dec) -> (r:
    InvoiceItemDraft)
    ensures
        r.description@ == plan.name@ + " ("@ + cycle_name(plan.billing_cycle) + ")"@,
        r.quantity == int_dec(sub.quantity as int),
        r.unit_price == plan.base_price,
        r.amount == amount,
        r.period_start == Some(sub.current_period_start),
        r.period_end == Some(sub.current_period_end),
{
    let mut d: Vec<char> = Vec::new();
    extend_str(&mut d, plan.name.as_str());
    extend_str(&mut d, " (");
    extend_str(&mut d, format_cycle(plan.billing_cycle));
    extend_str(&mut d, ")");
    InvoiceItemDraft {
        description: string_of(&d),
        quantity: Dec::from_int(sub.quantity as i64),
        unit_price: plan.base_price,
        amount,
        period_start: Some(sub.current_period_start),
        period_end: Some(sub.current_period_end),
    }
}

pub open spec fn item_amounts(items: Seq<InvoiceItemDraft>) -> Seq<Dec> {
    items.map_values(|i: InvoiceItemDraft| i.amount)
}

/// Tax on a subtotal at a percentage rate, rounded to cents.
pub open spec fn spec_tax(subtotal: Dec, rate: Dec) -> Option<Dec> {
    match spec_mul(subtotal, rate) {
        Some(p) => match decimal_quotient(p, hundred()) {
            Some(q) => Some(spec_round_dp(q, 2)),
            None => None,
        },
        None => None,
    }
}

/// Subtotal (sum of the lines), tax at `rate` percent rounded to cents, and total.
pub open spec fn spec_invoice_totals(amounts: Seq<Dec>, rate: Dec) -> Option<(Dec, Dec, Dec)> {
    match spec_sum(amounts) {
        Some(subtotal) => match spec_tax(subtotal, rate) {
            Some(tax) => match spec_add(subtotal, tax) {
                Some(total) => Some((subtotal, tax, total)),
                None => None,
            },
            None => None,
        },
        None => None,
    }
}

/// Tax of a subtotal at a percentage rate.
pub fn tax_at_rate(subtotal: &Dec, rate: &Dec) -> (r: Option<Dec>)
    requires
        subtotal.wf(),
        rate.wf(),
    ensures
        r == spec_tax(*subtotal, *rate),
        r matches Some(t) ==> t.wf(),
{
    match subtotal.checked_mul(rate) {
        Some(p) => {
            let h = dec_hundred();
            match checked_div(&p, &h) {
                Some(q) => Some(q.round_dp(2)),
                None => None,
            }
        },
        None => None,
    }
}

fn amounts_of(items: &Vec<InvoiceItemDraft>) -> (r: Vec<Dec>)
    ensures
        r@ == item_amounts(items@),
{
    let mut v: Vec<Dec> = Vec::new();
    let mut i: usize = 0;
    while i < items.len()
        invariant
            i <= items.len(),
            v@ == item_amounts(items@.subrange(0, i as int)),
        decreases items.len() - i,
    {
        v.push(items[i].amount);
        proof {
            assert(item_amounts(items@.subrange(0, i + 1)) =~= item_amounts(
                items@.subrange(0, i as int),
            ).push(items@[i as int].amount));
        }
        i = i + 1;
    }
    proof {
        assert(items@.subrange(0, items@.len() as int) =~= items@);
    }
    v
}

pub open spec fn items_wf(items: Seq<InvoiceItemDraft>) -> bool {
    forall|i: int| 0 <= i < items.len() ==> #[trigger] items[i].amount.wf()
}

/// Subtotal, tax and total of a list of lines at a tax rate.
pub fn invoice_totals(items: &Vec<InvoiceItemDraft>, rate: &Dec) -> (r: Option<(Dec, Dec, Dec)>)
    requires
        items_wf(items@),
        rate.wf(),
    ensures
        r == spec_invoice_totals(item_amounts(items@), *rate),
        r matches Some(t) ==> t.0.wf() && t.1.wf() && t.2.wf() && (exact_add(t.0, t.1) is Some
            ==> t.2.val() == t.0.val() + t.1.val()),
{
    let amounts = amounts_of(items);
    proof {
        assert forall|i: int| 0 <= i < amounts@.len() implies #[trigger] amounts@[i].wf() by {
            assert(amounts@[i] == items@[i].amount);
        }
        assert(all_wf(amounts@));
    }
    match sum_decs(&amounts) {
        Some(subtotal) => match tax_at_rate(&subtotal, rate) {
            Some(tax) => match subtotal.checked_add(&tax) {
                Some(total) => Some((subtotal, tax, total)),
                None => None,
            },
            None => None,
        },
        None => None,
    }
}

/// The error for a coupon code that no active coupon carries.
pub open spec fn unknown_coupon_message(code: Seq<char>) -> Seq<char> {
    "coupon '"@ + code + "' not found or inactive"@
}

/// No coupon was found, or the one found is exhausted.
pub open spec fn coupon_unusable(coupon: Option<Coupon>) -> bool {
    match coupon {
        Some(c) => coupon_exhausted(c),
        None => true,
    }
}

/// The tax rate of a request, zero when it names none.
pub open spec fn request_rate(req: CreateInvoiceRequest) -> Dec {
    match req.tax_rate {
        Some(t) => t,
        None => int_dec(0),
    }
}

/// The amounts of the lines a draft starts from: the subscription's line, if any.
pub open spec fn base_amounts(line: Option<InvoiceItemDraft>) -> Seq<Dec> {
    match line {
        Some(l) => seq![l.amount],
        None => Seq::empty(),
    }
}

/// Whether every amount of a new invoice stays in the decimal domain: the discount of a
/// coupon on the amount so far, and the subtotal, tax and total of the lines (the
/// discount line counting where the discount is positive).
pub open spec fn invoice_draft_priced(req: CreateInvoiceRequest, line: Option<InvoiceItemDraft>, coupon: Option<Coupon>) -> bool {
    match (req.coupon_code, coupon) {
        (Some(_), Some(c)) => match spec_sum(base_amounts(line)) {
            Some(so_far) => match spec_discount(c.discount_type, c.discount_value, so_far) {
                Some(d) => spec_invoice_totals(
                    if d.val() > 0 {
                        base_amounts(line).push(spec_neg(d))
                    } else {
                        base_amounts(line)
                    },
                    request_rate(req),
                ) is Some,
                None => false,
            },
            None => false,
        },
        _ => spec_invoice_totals(base_amounts(line), request_rate(req)) is Some,
    }
}

/// The discount that the coupon found for the request's code grants on the subscription's
/// line: none without a code, without a coupon, or with an exhausted one.
pub open spec fn granted_discount(req: CreateInvoiceRequest, line: Option<InvoiceItemDraft>, coupon: Option<Coupon>) -> Option<Dec> {
    match (req.coupon_code, coupon) {
        (Some(_), Some(c)) => if coupon_exhausted(c) {
            None
        } else {
            match spec_sum(base_amounts(line)) {
                Some(so_far) => spec_discount(c.discount_type, c.discount_value, so_far),
                None => None,
            }
        },
        _ => None,
    }
}

/// Whether the coupon found for the request grants a positive discount.
pub open spec fn discount_granted(req: CreateInvoiceRequest, line: Option<InvoiceItemDraft>, coupon: Option<Coupon>) -> bool {
    granted_discount(req, line, coupon) matches Some(d) && d.val() > 0
}

/// What a new invoice draft holds, given the request, the invoice number, the
/// subscription line (when the request names a subscription) and the coupon that the
/// request's code found (when it names one):
/// - `Err(BadRequest)` when a code was given but no coupon found, or the coupon is exhausted;
/// - a discount line `-d` after the subscription line when the discount `d` is positive,
///   and then the coupon's id is the one whose redemptions count up;
/// - subtotal, tax at the request's rate (zero when absent) and total as in
///   `spec_invoice_totals`; currency `USD` when the request names none.
/// What `build_invoice_draft` gives for a request, an invoice number, the subscription's
/// line and the coupon found for the request's code.
pub open spec fn invoice_draft_outcome(
    req: CreateInvoiceRequest,
    invoice_number: String,
    subscription_line: Option<InvoiceItemDraft>,
    coupon: Option<Coupon>,
    r: Result<CreateInvoiceDraft, BillingError>,
) -> bool {
    &&& (req.coupon_code is Some && coupon is None) ==> (r matches Err(BillingError::BadRequest(m))
            && m@ == unknown_coupon_message(req.coupon_code.unwrap()@))
    &&& (req.coupon_code is Some && coupon_unusable(coupon)) ==> (r matches Err(
            BillingError::BadRequest(_),
        ))
    &&& r matches Err(e) ==> e is BadRequest || e is Internal
    &&& r matches Ok(d) ==> {
            &&& d.invoice_number == invoice_number
            &&& d.customer_id == req.customer_id
            &&& d.subscription_id == req.subscription_id
            &&& d.due_at == req.due_at
            &&& d.notes == req.notes
            &&& d.currency@ == (match req.currency {
                Some(c) => c@,
                None => "USD"@,
            })
            &&& d.line_items@.len() >= 1 ==> subscription_line is Some || req.coupon_code is Some
            &&& (subscription_line matches Some(l) ==> d.line_items@.len() >= 1
                && d.line_items@[0] == l)
            &&& (subscription_line is None && req.coupon_code is None ==> d.line_items@.len()
                == 0)
            &&& spec_invoice_totals(
                item_amounts(d.line_items@),
                request_rate(req),
            ) == Some((d.subtotal, d.tax, d.total))
            &&& exact_add(d.subtotal, d.tax) is Some ==> d.total.val() == d.subtotal.val()
                + d.tax.val()
            &&& (d.coupon_id_to_increment matches Some(id) ==> coupon matches Some(c) && id
                == c.id && d.line_items@.len() == (if subscription_line is Some {
                2int
            } else {
                1int
            }))
        }
    &&& r matches Ok(d) ==> (d.coupon_id_to_increment is Some <==> discount_granted(
        req,
        subscription_line,
        coupon,
    ))
    &&& r matches Ok(d) ==> (discount_granted(req, subscription_line, coupon)
        ==> d.coupon_id_to_increment == Some(coupon.unwrap().id) && d.line_items@.last().amount
        == spec_neg(granted_discount(req, subscription_line, coupon).unwrap())
        && d.line_items@.last().description@ == "Discount ("@ + coupon.unwrap().code@ + ")"@)
    &&& (req.coupon_code is None || !coupon_unusable(coupon)) ==> (r is Ok <==> invoice_draft_priced(
        req,
        subscription_line,
        coupon,
    ))
}

pub fn build_invoice_draft(
    req: CreateInvoiceRequest,
    invoice_number: String,
    subscription_line: Option<InvoiceItemDraft>,
    coupon: Option<Coupon>,
) -> (r: Result<CreateInvoiceDraft, BillingError>)
    requires
        subscription_line matches Some(l) ==> l.amount.wf(),
        coupon matches Some(c) ==> c.discount_value.wf(),
        req.tax_rate matches Some(t) ==> t.wf(),
    ensures
        invoice_draft_outcome(req, invoice_number, subscription_line, coupon, r),
{
    let currency = match &req.currency {
        Some(c) => c.clone(),
        None => owned("USD"),
    };
    let tax_rate = match req.tax_rate {
        Some(t) => t,
        None => Dec::zero(),
    };
    let mut line_items: Vec<InvoiceItemDraft> = Vec::new();
    let has_sub_line = subscription_line.is_some();
    if let Some(line) = subscription_line {
        line_items.push(line);
    }
    proof {
        assert(item_amounts(line_items@) =~= base_amounts(subscription_line));
    }
    let mut coupon_id_to_increment: Option<String> = None;
    if let Some(code) = &req.coupon_code {
        let c = match coupon {
            Some(c) => c,
            None => {
                let mut m: Vec<char> = Vec::new();
                extend_str(&mut m, "coupon '");
                extend_str(&mut m, code.as_str());
                extend_str(&mut m, "' not found or inactive");
                return Err(BillingError::BadRequest(string_of(&m)));
            },
        };
        validate_coupon(&c)?;
        let amounts = amounts_of(&line_items);
        proof {
            assert forall|i: int| 0 <= i < amounts@.len() implies #[trigger] amounts@[i].wf() by {
                assert(amounts@[i] == line_items@[i].amount);
            }
        }
        let so_far = match sum_decs(&amounts) {
            Some(s) => s,
            None => {
                return Err(overflow());
            },
        };
        let discount = match discount_amount(c.discount_type, &c.discount_value, &so_far) {
            Some(d) => d,
            None => {
                return Err(overflow());
            },
        };
        if discount.is_positive() {
            let neg = discount.neg();
            let mut desc: Vec<char> = Vec::new();
            extend_str(&mut desc, "Discount (");
            extend_str(&mut desc, c.code.as_str());
            extend_str(&mut desc, ")");
            let ghost before = line_items@;
            line_items.push(
                InvoiceItemDraft {
                    description: string_of(&desc),
                    quantity: Dec::from_int(1),
                    unit_price: neg,
                    amount: neg,
                    period_start: None,
                    period_end: None,
                },
            );
            proof {
                assert(item_amounts(line_items@) =~= item_amounts(before).push(neg));
            }
            coupon_id_to_increment = Some(c.id.clone());
        }
    }
    proof {
        assert(items_wf(line_items@));
    }
    let (subtotal, tax, total) = match invoice_totals(&line_items, &tax_rate) {
        Some(t) => t,
        None => {
            return Err(overflow());
        },
    };
    Ok(
        CreateInvoiceDraft {
            invoice_number,
            customer_id: req.customer_id,
            subscription_id: req.subscription_id,
            due_at: req.due_at,
            currency,
            notes: req.notes,
            subtotal,
            tax,
            total,
            line_items,
            coupon_id_to_increment,
        },
    )
}

} // verus!

verus! {

/// Storage of invoices, and the pricing of a plan for a quantity.
pub trait InvoiceRepository: Sized {
    /// Holds of each answer the store gives to listing the invoices that `filter`
    /// selects; a store that does not describe its answers admits every answer (so for
    /// each relation below).
    closed spec fn list_invoices_answer(&self, filter: ListInvoicesFilter, answer: Result<Vec<InvoiceView>, BillingError>) -> bool {
        true
    }

    /// Holds of each answer when asked for the invoice `id`.
    closed spec fn get_invoice_answer(&self, id: Seq<char>, answer: Result<Option<Invoice>, BillingError>) -> bool {
        true
    }

    /// Holds of each answer to storing `draft` on the invoice `id` (none where no row
    /// matched the expected version).
    closed spec fn update_invoice_answer(&self, id: Seq<char>, draft: UpdateInvoiceDraft, answer: Result<Option<Invoice>, BillingError>) -> bool {
        true
    }

    /// Holds of each answer to deleting the invoice `id` (the rows deleted).
    closed spec fn delete_invoice_answer(&self, id: Seq<char>, answer: Result<u64, BillingError>) -> bool {
        true
    }

    /// Holds of each answer to listing the lines of the invoice `invoice_id`.
    closed spec fn list_invoice_items_answer(&self, invoice_id: Seq<char>, answer: Result<Vec<InvoiceItem>, BillingError>) -> bool {
        true
    }

    fn list_invoices(&self, filter: &ListInvoicesFilter) -> (r: Result<Vec<InvoiceView>, BillingError>)
        ensures
            self.list_invoices_answer(*filter, r),
    ;

    fn get_invoice(&self, id: &str) -> (r: Result<Option<Invoice>, BillingError>)
        ensures
            self.get_invoice_answer(id@, r),
    ;

    /// Holds of each invoice number the store hands out.
    closed spec fn next_invoice_number_answer(&self, answer: Result<String, BillingError>) -> bool {
        true
    }

    /// Holds of each answer when asked for the subscription `id`.
    closed spec fn find_subscription_answer(&self, id: Seq<char>, answer: Result<Option<Subscription>, BillingError>) -> bool {
        true
    }

    /// Holds of each answer when asked for the plan `id`.
    closed spec fn find_plan_answer(&self, id: Seq<char>, answer: Result<Option<PricingPlan>, BillingError>) -> bool {
        true
    }

    /// Holds of each answer when asked for the coupon with `code`.
    closed spec fn find_coupon_answer(&self, code: Seq<char>, answer: Result<Option<Coupon>, BillingError>) -> bool {
        true
    }

    /// Holds of each answer when asked what the plan charges for `quantity`.
    closed spec fn plan_amount_answer(&self, plan: PricingPlan, quantity: i32, answer: Result<Dec, BillingError>) -> bool {
        true
    }

    /// Holds of each answer to storing a new invoice from `draft`.
    closed spec fn create_invoice_answer(&self, draft: CreateInvoiceDraft, answer: Result<Invoice, BillingError>) -> bool {
        true
    }

    /// Holds of each answer to adding the line `req` to the invoice `invoice_id`.
    closed spec fn add_invoice_item_answer(&self, invoice_id: Seq<char>, req: AddInvoiceItemRequest, answer: Result<InvoiceItem, BillingError>) -> bool {
        true
    }

    fn next_invoice_number(&self) -> (r: Result<String, BillingError>)
        ensures
            self.next_invoice_number_answer(r),
    ;

    fn find_subscription(&self, id: &str) -> (r: Result<Option<Subscription>, BillingError>)
        ensures
            self.find_subscription_answer(id@, r),
    ;

    fn find_plan(&self, id: &str) -> (r: Result<Option<PricingPlan>, BillingError>)
        ensures
            self.find_plan_answer(id@, r),
    ;

    fn find_coupon(&self, code: &str) -> (r: Result<Option<Coupon>, BillingError>)
        ensures
            self.find_coupon_answer(code@, r),
    ;

    /// What the plan charges for a quantity under its pricing model.
    fn plan_amount(&self, plan: &PricingPlan, quantity: i32) -> (r: Result<Dec, BillingError>)
        ensures
            self.plan_amount_answer(*plan, quantity, r),
    ;

    /// The store after storing a new invoice from `draft`, with that answer; a store
    /// that does not describe its state keeps the same value (so for each `after_`
    /// function below).
    closed spec fn after_create_invoice(&self, draft: CreateInvoiceDraft, answer: Result<Invoice, BillingError>) -> Self {
        *self
    }

    /// The store after storing `draft` on the invoice `id`.
    closed spec fn after_update_invoice(&self, id: Seq<char>, draft: UpdateInvoiceDraft, answer: Result<Option<Invoice>, BillingError>) -> Self {
        *self
    }

    /// The store after deleting the invoice `id`.
    closed spec fn after_delete_invoice(&self, id: Seq<char>, answer: Result<u64, BillingError>) -> Self {
        *self
    }

    /// The store after adding the line `req` to the invoice `invoice_id`.
    closed spec fn after_add_invoice_item(&self, invoice_id: Seq<char>, req: AddInvoiceItemRequest, answer: Result<InvoiceItem, BillingError>) -> Self {
        *self
    }

    fn create_invoice(&mut self, draft: &CreateInvoiceDraft) -> (r: Result<Invoice, BillingError>)
        ensures
            old(self).create_invoice_answer(*draft, r),
            *final(self) == old(self).after_create_invoice(*draft, r),
    ;

    fn update_invoice(&mut self, id: &str, draft: &UpdateInvoiceDraft) -> (r: Result<Option<Invoice>, BillingError>)
        ensures
            old(self).update_invoice_answer(id@, *draft, r),
            *final(self) == old(self).after_update_invoice(id@, *draft, r),
    ;

    fn delete_invoice(&mut self, id: &str) -> (r: Result<u64, BillingError>)
        ensures
            old(self).delete_invoice_answer(id@, r),
            *final(self) == old(self).after_delete_invoice(id@, r),
    ;

    fn add_invoice_item(&mut self, invoice_id: &str, req: &AddInvoiceItemRequest) -> (r: Result<
        InvoiceItem,
        BillingError,
    >)
        ensures
            old(self).add_invoice_item_answer(invoice_id@, *req, r),
            *final(self) == old(self).after_add_invoice_item(invoice_id@, *req, r),
    ;

    fn list_invoice_items(&self, invoice_id: &str) -> (r: Result<Vec<InvoiceItem>, BillingError>)
        ensures
            self.list_invoice_items_answer(invoice_id@, r),
    ;
}

pub fn list_invoices<R: InvoiceRepository>(repo: &R, filter: &ListInvoicesFilter) -> (r: Result<
    Vec<InvoiceView>,
    BillingError,
>)
    ensures
        repo.list_invoices_answer(*filter, r),
{
    repo.list_invoices(filter)
}

/// A stored invoice, or `NotFound` for its id.
pub fn found_invoice(id: &str, stored: Option<Invoice>) -> (r: Result<Invoice, BillingError>)
    ensures
        match stored {
            Some(i) => r == Ok::<Invoice, BillingError>(i),
            None => r matches Err(BillingError::NotFound { entity, id: x }) && entity@ == "invoice"@
                && x@ == id@,
        },
{
    match stored {
        Some(i) => Ok(i),
        None => Err(not_found("invoice", id)),
    }
}

pub fn get_invoice<R: InvoiceRepository>(repo: &R, id: &str) -> (r: Result<Invoice, BillingError>)
    ensures
        exists|answer: Result<Option<Invoice>, BillingError>|
            #[trigger] repo.get_invoice_answer(id@, answer) && match answer {
                Ok(Some(i)) => r == Ok::<Invoice, BillingError>(i),
                Ok(None) => r matches Err(BillingError::NotFound { entity, id: x }) && entity@
                    == "invoice"@ && x@ == id@,
                Err(e) => r == Err::<Invoice, BillingError>(e),
            },
{
    let stored = repo.get_invoice(id)?;
    found_invoice(id, stored)
}

/// The line that bills a subscription's plan: as `subscription_line_item` makes it.
pub open spec fn is_subscription_line(l: InvoiceItemDraft, plan: PricingPlan, sub: Subscription, amount: Dec) -> bool {
    &&& l.description@ == plan.name@ + " ("@ + cycle_name(plan.billing_cycle) + ")"@
    &&& l.quantity == int_dec(sub.quantity as int)
    &&& l.unit_price == plan.base_price
    &&& l.amount == amount
    &&& l.period_start == Some(sub.current_period_start)
    &&& l.period_end == Some(sub.current_period_end)
}

/// The last steps of creating an invoice: the draft for the request, number, line and
/// coupon is handed to the store, whose answer is the result and which then becomes
/// `fin`; a refused draft is the result, and the store `fin` is `repo` unchanged.
pub open spec fn invoice_stored<R: InvoiceRepository>(
    repo: R,
    req: CreateInvoiceRequest,
    number: String,
    line: Option<InvoiceItemDraft>,
    coupon: Option<Coupon>,
    r: Result<Invoice, BillingError>,
    fin: R,
) -> bool {
    exists|d: Result<CreateInvoiceDraft, BillingError>|
        #[trigger] invoice_draft_outcome(req, number, line, coupon, d) && match d {
            Err(e) => r == Err::<Invoice, BillingError>(e) && fin == repo,
            Ok(draft) => repo.create_invoice_answer(draft, r) && fin == repo.after_create_invoice(
                draft,
                r,
            ),
        }
}

/// Creating an invoice once the line is known: the coupon named by the request is looked
/// up (an amount outside the decimal domain is an internal error), then `invoice_stored`.
pub open spec fn invoice_with_coupon<R: InvoiceRepository>(
    repo: R,
    req: CreateInvoiceRequest,
    number: String,
    line: Option<InvoiceItemDraft>,
    r: Result<Invoice, BillingError>,
    fin: R,
) -> bool {
    match req.coupon_code {
        None => invoice_stored(repo, req, number, line, None, r, fin),
        Some(code) => exists|ca: Result<Option<Coupon>, BillingError>|
            #[trigger] repo.find_coupon_answer(code@, ca) && match ca {
                Err(e) => r == Err::<Invoice, BillingError>(e) && fin == repo,
                Ok(c) => if c matches Some(cc) && !cc.discount_value.wf() {
                    r matches Err(BillingError::Internal(_)) && fin == repo
                } else {
                    invoice_stored(repo, req, number, line, c, r, fin)
                },
            },
    }
}

/// Creating an invoice once its number is known: a named subscription and its plan must
/// exist (else `NotFound`), and the plan's price for the subscription's quantity makes
/// its line; then `invoice_with_coupon`.
pub open spec fn invoice_with_number<R: InvoiceRepository>(
    repo: R,
    req: CreateInvoiceRequest,
    number: String,
    r: Result<Invoice, BillingError>,
    fin: R,
) -> bool {
    match req.subscription_id {
        None => invoice_with_coupon(repo, req, number, None, r, fin),
        Some(sid) => exists|sa: Result<Option<Subscription>, BillingError>|
            #[trigger] repo.find_subscription_answer(sid@, sa) && match sa {
                Err(e) => r == Err::<Invoice, BillingError>(e) && fin == repo,
                Ok(None) => r matches Err(BillingError::NotFound { entity, id }) && entity@
                    == "subscription"@ && id@ == sid@ && fin == repo,
                Ok(Some(sub)) => exists|pa: Result<Option<PricingPlan>, BillingError>|
                    #[trigger] repo.find_plan_answer(sub.plan_id@, pa) && match pa {
                        Err(e) => r == Err::<Invoice, BillingError>(e) && fin == repo,
                        Ok(None) => r matches Err(BillingError::NotFound { entity, id }) && entity@
                            == "plan"@ && id@ == sub.plan_id@ && fin == repo,
                        Ok(Some(plan)) => exists|aa: Result<Dec, BillingError>|
                            #[trigger] repo.plan_amount_answer(plan, sub.quantity, aa) && match aa {
                                Err(e) => r == Err::<Invoice, BillingError>(e) && fin == repo,
                                Ok(amount) => if !amount.wf() {
                                    r matches Err(BillingError::Internal(_)) && fin == repo
                                } else {
                                    exists|l: InvoiceItemDraft|
                                        is_subscription_line(l, plan, sub, amount) && #[trigger] invoice_with_coupon(
                                            repo,
                                            req,
                                            number,
                                            Some(l),
                                            r,
                                            fin,
                                        )
                                },
                            },
                    },
            },
    }
}

/// Creates an invoice: a request without a customer is invalid; a named subscription
/// and its plan must exist, and its line is priced by the repository; the rest is
/// `build_invoice_draft` on the invoice number the repository hands out. Nothing is
/// stored unless a draft was built.
pub fn create_invoice<R: InvoiceRepository>(repo: &mut R, req: CreateInvoiceRequest) -> (r: Result<
    Invoice,
    BillingError,
>)
    requires
        req.tax_rate matches Some(t) ==> t.wf(),
    ensures
        req.customer_id@.len() == 0 ==> (r matches Err(BillingError::Validation(m)) && m@
            == "customer_id is required"@) && *final(repo) == *old(repo),
        req.customer_id@.len() != 0 ==> exists|na: Result<String, BillingError>|
            #[trigger] old(repo).next_invoice_number_answer(na) && match na {
                Err(e) => r == Err::<Invoice, BillingError>(e) && *final(repo) == *old(repo),
                Ok(number) => invoice_with_number(*old(repo), req, number, r, *final(repo)),
            },
{
    if req.customer_id.as_str().unicode_len() == 0 {
        return Err(validation("customer_id is required"));
    }
    let invoice_number = repo.next_invoice_number()?;
    let mut line: Option<InvoiceItemDraft> = None;
    if let Some(sub_id) = &req.subscription_id {
        let sub = match repo.find_subscription(sub_id.as_str())? {
            Some(s) => s,
            None => {
                return Err(not_found("subscription", sub_id.as_str()));
            },
        };
        let plan = match repo.find_plan(sub.plan_id.as_str())? {
            Some(p) => p,
            None => {
                return Err(not_found("plan", sub.plan_id.as_str()));
            },
        };
        let amount = repo.plan_amount(&plan, sub.quantity)?;
        if !amount.is_valid() {
            return Err(crate::error::overflow());
        }
        let l = subscription_line_item(&plan, &sub, amount);
        let r = store_invoice_with_coupon(repo, req, invoice_number, Some(l));
        proof {
            assert(is_subscription_line(l, plan, sub, amount));
            assert(old(repo).plan_amount_answer(plan, sub.quantity, Ok(amount)));
        }
        return r;
    }
    store_invoice_with_coupon(repo, req, invoice_number, line)
}

/// The coupon stage of creating an invoice (see `invoice_with_coupon`).
fn store_invoice_with_coupon<R: InvoiceRepository>(
    repo: &mut R,
    req: CreateInvoiceRequest,
    invoice_number: String,
    line: Option<InvoiceItemDraft>,
) -> (r: Result<Invoice, BillingError>)
    requires
        line matches Some(l) ==> l.amount.wf(),
        req.tax_rate matches Some(t) ==> t.wf(),
    ensures
        invoice_with_coupon(*old(repo), req, invoice_number, line, r, *final(repo)),
{
    let coupon = match &req.coupon_code {
        Some(code) => repo.find_coupon(code.as_str())?,
        None => None,
    };
    if let Some(c) = &coupon {
        if !c.discount_value.is_valid() {
            return Err(crate::error::overflow());
        }
    }
    let ghost req0 = req;
    let ghost number0 = invoice_number;
    let draft = build_invoice_draft(req, invoice_number, line, coupon);
    let r = match draft {
        Ok(d) => repo.create_invoice(&d),
        Err(e) => Err(e),
    };
    proof {
        assert(invoice_draft_outcome(req0, number0, line, coupon, draft));
    }
    r
}

/// The changes an update stores: what the request gives, and the issue time when the
/// invoice becomes issued.
pub open spec fn spec_update_invoice_draft(req: UpdateInvoiceRequest, now: i64) -> UpdateInvoiceDraft {
    UpdateInvoiceDraft {
        status: req.status,
        due_at: req.due_at,
        notes: req.notes,
        stripe_invoice_id: req.stripe_invoice_id,
        xendit_invoice_id: req.xendit_invoice_id,
        lemonsqueezy_order_id: req.lemonsqueezy_order_id,
        version: req.version,
        issued_at: if req.status == Some(InvoiceStatus::Issued) {
            Some(now)
        } else {
            None
        },
    }
}

pub fn build_update_invoice_draft(req: UpdateInvoiceRequest, now: i64) -> (r: UpdateInvoiceDraft)
    ensures
        r == spec_update_invoice_draft(req, now),
        r.status == req.status,
        r.due_at == req.due_at,
        r.notes == req.notes,
        r.stripe_invoice_id == req.stripe_invoice_id,
        r.xendit_invoice_id == req.xendit_invoice_id,
        r.lemonsqueezy_order_id == req.lemonsqueezy_order_id,
        r.version == req.version,
        r.issued_at == (if req.status == Some(InvoiceStatus::Issued) {
            Some(now)
        } else {
            None
        }),
{
    let issued_at = if req.status == Some(InvoiceStatus::Issued) {
        Some(now)
    } else {
        None
    };
    UpdateInvoiceDraft {
        status: req.status,
        due_at: req.due_at,
        notes: req.notes,
        stripe_invoice_id: req.stripe_invoice_id,
        xendit_invoice_id: req.xendit_invoice_id,
        lemonsqueezy_order_id: req.lemonsqueezy_order_id,
        version: req.version,
        issued_at,
    }
}

/// The message for an update that lost the optimistic-locking race.
pub open spec fn version_conflict_message(id: Seq<char>) -> Seq<char> {
    "invoice "@ + id + " was modified concurrently (version mismatch)"@
}

/// An update that matched no row at the expected version is a conflict.
pub fn updated_or_conflict(id: &str, updated: Option<Invoice>) -> (r: Result<Invoice, BillingError>)
    ensures
        match updated {
            Some(i) => r == Ok::<Invoice, BillingError>(i),
            None => r matches Err(BillingError::Conflict(m)) && m@ == version_conflict_message(id@),
        },
{
    match updated {
        Some(i) => Ok(i),
        None => {
            let mut v: Vec<char> = Vec::new();
            extend_str(&mut v, "invoice ");
            extend_str(&mut v, id);
            extend_str(&mut v, " was modified concurrently (version mismatch)");
            Err(BillingError::Conflict(string_of(&v)))
        },
    }
}

pub fn update_invoice<R: InvoiceRepository>(repo: &mut R, id: &str, req: UpdateInvoiceRequest, now: i64) -> (r:
    Result<Invoice, BillingError>)
    ensures
        exists|answer: Result<Option<Invoice>, BillingError>|
            #[trigger] old(repo).update_invoice_answer(id@, spec_update_invoice_draft(req, now), answer)
                && *final(repo) == old(repo).after_update_invoice(
                id@,
                spec_update_invoice_draft(req, now),
                answer,
            ) && match answer {
                Ok(Some(i)) => r == Ok::<Invoice, BillingError>(i),
                Ok(None) => r matches Err(BillingError::Conflict(m)) && m@ == version_conflict_message(id@),
                Err(e) => r == Err::<Invoice, BillingError>(e),
            },
{
    let draft = build_update_invoice_draft(req, now);
    let updated = repo.update_invoice(id, &draft)?;
    updated_or_conflict(id, updated)
}

pub fn delete_invoice<R: InvoiceRepository>(repo: &mut R, id: &str) -> (r: Result<(), BillingError>)
    ensures
        exists|answer: Result<u64, BillingError>|
            #[trigger] old(repo).delete_invoice_answer(id@, answer) && *final(repo) == old(
                repo,
            ).after_delete_invoice(id@, answer) && match answer {
                Ok(0) => r matches Err(BillingError::NotFound { entity, id: x }) && entity@ == "invoice"@
                    && x@ == id@,
                Ok(_) => r is Ok,
                Err(e) => r == Err::<(), BillingError>(e),
            },
{
    let affected = repo.delete_invoice(id)?;
    crate::billing::coupons::rows_to_result(affected, "invoice", id)
}

/// Adds a line to an invoice: it must be described.
pub fn add_invoice_item<R: InvoiceRepository>(repo: &mut R, invoice_id: &str, req: AddInvoiceItemRequest) -> (r:
    Result<InvoiceItem, BillingError>)
    ensures
        req.description@.len() == 0 ==> (r matches Err(BillingError::Validation(m)) && m@
            == "description is required"@) && *final(repo) == *old(repo),
        req.description@.len() != 0 ==> old(repo).add_invoice_item_answer(invoice_id@, req, r)
            && *final(repo) == old(repo).after_add_invoice_item(invoice_id@, req, r),
{
    if req.description.as_str().unicode_len() == 0 {
        return Err(validation("description is required"));
    }
    repo.add_invoice_item(invoice_id, &req)
}

pub fn list_invoice_items<R: InvoiceRepository>(repo: &R, invoice_id: &str) -> (r: Result<
    Vec<InvoiceItem>,
    BillingError,
>)
    ensures
        repo.list_invoice_items_answer(invoice_id@, r),
{
    repo.list_invoice_items(invoice_id)
}

/// The amount of an added line: quantity times unit price, rounded to cents.
pub fn item_amount(quantity: &Dec, unit_price: &Dec) -> (r: Option<Dec>)
    requires
        quantity.wf(),
        unit_price.wf(),
    ensures
        r == (match spec_mul(*quantity, *unit_price) {
            Some(p) => Some(spec_round_dp(p, 2)),
            None => None,
        }),
{
    match quantity.checked_mul(unit_price) {
        Some(p) => Some(p.round_dp(2)),
        None => None,
    }
}

/// Totals after the lines changed: the new subtotal, tax at the invoice's previous
/// effective rate (old tax over old subtotal, rounded to cents; none when the old
/// subtotal was not positive), and their sum.
pub open spec fn spec_recomputed(subtotal: Dec, old_subtotal: Dec, old_tax: Dec) -> Option<(Dec, Dec, Dec)> {
    let tax = if old_subtotal.val() > 0 {
        match spec_mul(subtotal, old_tax) {
            Some(p) => match decimal_quotient(p, old_subtotal) {
                Some(q) => Some(spec_round_dp(q, 2)),
                None => None,
            },
            None => None,
        }
    } else {
        Some(int_dec(0))
    };
    match tax {
        Some(t) => match spec_add(subtotal, t) {
            Some(total) => Some((subtotal, t, total)),
            None => None,
        },
        None => None,
    }
}

pub fn recomputed_totals(subtotal: &Dec, old_subtotal: &Dec, old_tax: &Dec) -> (r: Option<(Dec, Dec, Dec)>)
    requires
        subtotal.wf(),
        old_subtotal.wf(),
        old_tax.wf(),
    ensures
        r == spec_recomputed(*subtotal, *old_subtotal, *old_tax),
        r matches Some(t) ==> (exact_add(t.0, t.1) is Some ==> t.2.val() == t.0.val() + t.1.val()),
{
    let tax = if old_subtotal.is_positive() {
        match subtotal.checked_mul(old_tax) {
            Some(p) => match checked_div(&p, old_subtotal) {
                Some(q) => q.round_dp(2),
                None => {
                    return None;
                },
            },
            None => {
                return None;
            },
        }
    } else {
        Dec::zero()
    };
    match subtotal.checked_add(&tax) {
        Some(total) => Some((*subtotal, tax, total)),
        None => None,
    }
}

} // verus!

verus! {

/// A coupon's redemption is counted exactly when it grants a positive discount, whatever
/// its kind: the draft then names the coupon to count and ends with the discount line
/// `Discount (<code>)` of minus the discount; otherwise no coupon is counted.
pub proof fn lemma_redemption_counted_with_discount(
    req: CreateInvoiceRequest,
    number: String,
    line: Option<InvoiceItemDraft>,
    coupon: Option<Coupon>,
    r: Result<CreateInvoiceDraft, BillingError>,
)
    requires
        invoice_draft_outcome(req, number, line, coupon, r),
    ensures
        r matches Ok(d) ==> (discount_granted(req, line, coupon) ==> d.coupon_id_to_increment
            == Some(coupon.unwrap().id) && d.line_items@.last().amount == spec_neg(
            granted_discount(req, line, coupon).unwrap(),
        )),
        r matches Ok(d) ==> (!discount_granted(req, line, coupon) ==> d.coupon_id_to_increment is None),
{
}

/// A fixed-amount coupon grants the smaller of its value and the amount so far, so with
/// a positive value on a positive amount its discount is positive and its redemption
/// is counted.
pub proof fn lemma_fixed_amount_redemption_counted(
    req: CreateInvoiceRequest,
    number: String,
    line: Option<InvoiceItemDraft>,
    c: Coupon,
    so_far: Dec,
    r: Result<CreateInvoiceDraft, BillingError>,
)
    requires
        invoice_draft_outcome(req, number, line, Some(c), r),
        req.coupon_code is Some,
        c.discount_type == DiscountType::FixedAmount,
        !coupon_exhausted(c),
        c.discount_value.val() > 0,
        spec_sum(base_amounts(line)) == Some(so_far),
        so_far.val() > 0,
    ensures
        r matches Ok(d) ==> d.coupon_id_to_increment == Some(c.id),
{
}

/// A fixed-amount coupon never takes more than the subtotal nor more than its value: it
/// takes the smaller of the two.
pub proof fn lemma_fixed_discount_capped(value: Dec, subtotal: Dec)
    requires
        value.wf(),
        subtotal.wf(),
    ensures
        spec_discount(DiscountType::FixedAmount, value, subtotal) matches Some(d) && d.val()
            <= subtotal.val() && d.val() <= value.val() && (d == value || d == subtotal),
{
}

} // verus!

verus! {

/// Which customer notices an invoice update sends.
#[derive(Clone, Copy, Debug)]
pub struct UpdateNotices {
    /// The invoice was marked paid.
    pub paid: bool,
    /// The invoice was marked issued.
    pub issued: bool,
}

pub fn update_notices(status: Option<InvoiceStatus>) -> (r: UpdateNotices)
    ensures
        r.paid == (status == Some(InvoiceStatus::Paid)),
        r.issued == (status == Some(InvoiceStatus::Issued)),
{
    UpdateNotices {
        paid: status == Some(InvoiceStatus::Paid),
        issued: status == Some(InvoiceStatus::Issued),
    }
}

/// The due date an issued-invoice notice shows: `YYYY-MM-DD`, or `N/A` without one.
pub fn notice_due_date(due_at: Option<i64>) -> (r: Option<String>)
    ensures
        match due_at {
            Some(t) => match crate::time::utc_text(t as int, crate::time::ymd_pattern()) {
                Some(x) => r matches Some(s) && s@ == x,
                None => r is None,
            },
            None => r matches Some(s) && s@ == "N/A"@,
        },
{
    match due_at {
        Some(t) => crate::time::format_ymd(t),
        None => Some(owned("N/A")),
    }
}

} // verus!

verus! {

/// The text `s` left-padded with `0` to `w` characters, or cut to its first `w`
/// characters when longer (SQL `LPAD(s, w, '0')`).
pub open spec fn lpad_zeros(s: Seq<char>, w: nat) -> Seq<char> {
    if s.len() >= w {
        s.subrange(0, w as int)
    } else {
        Seq::new((w - s.len()) as nat, |i: int| '0') + s
    }
}

/// A document number from a sequence value: the prefix, then the value's digits padded
/// to eight (`INV-00000042`, `CN-00000007`).
pub fn document_number(prefix: &str, seq: u64) -> (r: String)
    ensures
        r@ == prefix@ + lpad_zeros(crate::text::nat_digits(seq as nat), 8),
{
    let digits = crate::text::digits_u128(seq as u128);
    let mut out: Vec<char> = Vec::new();
    extend_str(&mut out, prefix);
    let ghost base = out@;
    if digits.len() >= 8 {
        let mut i: usize = 0;
        while i < 8
            invariant
                digits.len() >= 8,
                i <= 8,
                out@ == base + digits@.subrange(0, i as int),
            decreases 8 - i,
        {
            out.push(digits[i]);
            proof {
                assert(digits@.subrange(0, i + 1) =~= digits@.subrange(0, i as int).push(digits@[i as int]));
                assert(base + digits@.subrange(0, i + 1) =~= (base + digits@.subrange(0, i as int)).push(
                    digits@[i as int],
                ));
            }
            i = i + 1;
        }
    } else {
        let pad: usize = 8 - digits.len();
        let mut i: usize = 0;
        while i < pad
            invariant
                pad == 8 - digits.len(),
                i <= pad,
                out@ == base + Seq::new(i as nat, |k: int| '0'),
            decreases pad - i,
        {
            out.push('0');
            proof {
                assert(Seq::new((i + 1) as nat, |k: int| '0') =~= Seq::new(i as nat, |k: int| '0').push('0'));
                assert(base + Seq::new((i + 1) as nat, |k: int| '0') =~= (base + Seq::new(
                    i as nat,
                    |k: int| '0',
                )).push('0'));
            }
            i = i + 1;
        }
        crate::text::extend_chars(&mut out, &digits);
        proof {
            assert(out@ =~= base + (Seq::new(pad as nat, |k: int| '0') + digits@));
        }
    }
    string_of(&out)
}

} // verus!
