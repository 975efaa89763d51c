//! The stored records that the billing rules read, with amounts as `Dec` and
//! instants as Unix seconds.
use vstd::prelude::*;
use crate::money::Dec;
use crate::error::owned;

verus! {

#[derive(Clone, Copy, Debug, PartialEq, Eq, Structural)]
pub enum InvoiceStatus {
    Draft,
    Issued,
    Paid,
    Overdue,
    Void,
}

impl InvoiceStatus {
    /// The variant's name, as the debug formatter prints it.
    pub open spec fn debug_text(self) -> Seq<char> {
        match self {
            InvoiceStatus::Draft => "Draft"@,
            InvoiceStatus::Issued => "Issued"@,
            InvoiceStatus::Paid => "Paid"@,
            InvoiceStatus::Overdue => "Overdue"@,
            InvoiceStatus::Void => "Void"@,
        }
    }

    pub fn debug_name(&self) -> (r: String)
        ensures
            r@ == self.debug_text(),
    {
        match self {
            InvoiceStatus::Draft => owned("Draft"),
            InvoiceStatus::Issued => owned("Issued"),
            InvoiceStatus::Paid => owned("Paid"),
            InvoiceStatus::Overdue => owned("Overdue"),
            InvoiceStatus::Void => owned("Void"),
        }
    }
}

#[derive(Clone, Copy, Debug, PartialEq, Eq, Structural)]
pub enum SubscriptionStatus {
    Active,
    Trialing,
    PastDue,
    Canceled,
    Paused,
}

#[derive(Clone, Copy, Debug, PartialEq, Eq, Structural)]
pub enum BillingCycle {
    Monthly,
    Quarterly,
    Yearly,
}

#[derive(Clone, Copy, Debug, PartialEq, Eq, Structural)]
pub enum DiscountType {
    Percentage,
    FixedAmount,
}

#[derive(Clone, Copy, Debug, PartialEq, Eq, Structural)]
pub enum PaymentProvider {
    Stripe,
    Xendit,
    Lemonsqueezy,
}

/// How a recorded payment was made.
#[derive(Clone, Copy, Debug, PartialEq, Eq, Structural)]
pub enum PaymentMethod {
    Stripe,
    Xendit,
    Lemonsqueezy,
}

#[derive(Clone, Copy, Debug, PartialEq, Eq, Structural)]
pub enum CreditNoteStatus {
    Draft,
    Issued,
    Void,
}

#[derive(Clone, Copy, Debug, PartialEq, Eq, Structural)]
pub enum DunningStep {
    Reminder,
    Warning,
    FinalNotice,
    Suspension,
}

#[derive(Clone, Copy, Debug, PartialEq, Eq, Structural)]
pub enum CreditReason {
    Manual,
}

#[derive(Clone, Copy, Debug, PartialEq, Eq, Structural)]
pub enum UserRole {
    Admin,
    Customer,
}

#[derive(Clone, Copy, Debug, PartialEq, Eq, Structural)]
pub enum PricingModel {
    Flat,
    PerUnit,
    Tiered,
    UsageBased,
}

#[derive(Clone, Copy, Debug, PartialEq, Eq, Structural)]
pub enum SavedPaymentMethodStatus {
    Active,
    Failed,
}

#[derive(Clone, Copy, Debug, PartialEq, Eq, Structural)]
pub enum SavedPaymentMethodType {
    Card,
}

/// A metadata entry read as a whole number of days: absent, present but not an
/// integer, or an integer.
#[derive(Clone, Copy, Debug, PartialEq, Eq, Structural)]
pub enum MetadataNumber {
    Absent,
    NotInteger,
    Integer(i64),
}

#[derive(Clone, Debug)]
pub struct Invoice {
    pub id: String,
    pub invoice_number: String,
    pub customer_id: String,
    pub subscription_id: Option<String>,
    pub status: InvoiceStatus,
    pub issued_at: Option<i64>,
    pub due_at: Option<i64>,
    pub paid_at: Option<i64>,
    pub subtotal: Dec,
    pub tax: Dec,
    pub total: Dec,
    pub currency: String,
    pub notes: Option<String>,
    pub version: i32,
    pub credits_applied: Dec,
    pub amount_due: Dec,
    pub auto_charge_attempts: i32,
}

#[derive(Clone, Debug)]
pub struct Subscription {
    pub id: String,
    pub customer_id: String,
    pub plan_id: String,
    pub status: SubscriptionStatus,
    pub current_period_start: i64,
    pub current_period_end: i64,
    pub canceled_at: Option<i64>,
    pub cancel_at_period_end: bool,
    pub trial_end: Option<i64>,
    pub quantity: i32,
    pub managed_by: Option<String>,
    pub version: i32,
    /// `preRenewalInvoiceDays` in the subscription's metadata object.
    pub meta_pre_renewal_days: MetadataNumber,
    /// `pre_renewal_invoice_days` in the subscription's metadata object.
    pub meta_pre_renewal_days_snake: MetadataNumber,
}

#[derive(Clone, Debug)]
pub struct PricingPlan {
    pub id: String,
    pub name: String,
    pub pricing_model: PricingModel,
    pub billing_cycle: BillingCycle,
    pub base_price: Dec,
    pub unit_price: Option<Dec>,
    pub usage_metric_name: Option<String>,
    pub trial_days: i32,
    pub active: bool,
}

#[derive(Clone, Debug)]
pub struct Coupon {
    pub id: String,
    pub code: String,
    pub name: String,
    pub discount_type: DiscountType,
    pub discount_value: Dec,
    pub currency: String,
    pub max_redemptions: Option<i32>,
    pub times_redeemed: i32,
    pub valid_from: i64,
    pub valid_until: Option<i64>,
    pub active: bool,
}

#[derive(Clone, Debug)]
pub struct Customer {
    pub id: String,
    pub name: String,
    pub email: String,
    pub billing_email: Option<String>,
    pub billing_address: Option<String>,
    pub billing_city: Option<String>,
    pub billing_state: Option<String>,
    pub billing_zip: Option<String>,
    pub billing_country: Option<String>,
    pub stripe_customer_id: Option<String>,
    pub xendit_customer_id: Option<String>,
}

#[derive(Clone, Debug)]
pub struct InvoiceItem {
    pub id: String,
    pub invoice_id: String,
    pub description: String,
    pub quantity: Dec,
    pub unit_price: Dec,
    pub amount: Dec,
    pub period_start: Option<i64>,
    pub period_end: Option<i64>,
}

#[derive(Clone, Debug)]
pub struct SavedPaymentMethod {
    pub id: String,
    pub customer_id: String,
    pub provider: PaymentProvider,
    pub provider_token: String,
    pub method_type: SavedPaymentMethodType,
    pub label: String,
    pub last_four: Option<String>,
    pub expiry_month: Option<i32>,
    pub expiry_year: Option<i32>,
    pub is_default: bool,
    pub status: SavedPaymentMethodStatus,
}

#[derive(Clone, Debug)]
pub struct CreditNote {
    pub id: String,
    pub credit_note_number: String,
    pub invoice_id: String,
    pub customer_id: String,
    pub reason: String,
    pub amount: Dec,
    pub status: CreditNoteStatus,
    pub issued_at: Option<i64>,
}

#[derive(Clone, Debug)]
pub struct SubscriptionDiscount {
    pub id: String,
    pub subscription_id: String,
    pub coupon_id: String,
    pub applied_at: i64,
    pub expires_at: Option<i64>,
}

#[derive(Clone, Debug)]
pub struct CustomerCredit {
    pub id: String,
    pub customer_id: String,
    pub currency: String,
    pub amount: Dec,
    pub balance_after: Dec,
    pub reason: CreditReason,
    pub description: String,
    pub invoice_id: Option<String>,
}

#[derive(Clone, Debug)]
pub struct DunningLogEntry {
    pub id: String,
    pub invoice_id: String,
    pub subscription_id: Option<String>,
    pub step: DunningStep,
    pub scheduled_at: i64,
    pub executed_at: Option<i64>,
    pub notes: Option<String>,
}

} // verus!
