//! The sales ledger: how events are classified and what a backfill reports.
use vstd::prelude::*;
use crate::models::{CreditNoteStatus, SubscriptionStatus};
use crate::money::Dec;

verus! {

#[derive(Clone, Copy, Debug, PartialEq, Eq, Structural)]
pub enum SalesClassification {
    Bookings,
    Billings,
    Collections,
    Adjustments,
    Recurring,
}

impl SalesClassification {
    /// The classification's stored name.
    pub open spec fn name(self) -> Seq<char> {
        match self {
            SalesClassification::Bookings => "bookings"@,
            SalesClassification::Billings => "billings"@,
            SalesClassification::Collections => "collections"@,
            SalesClassification::Adjustments => "adjustments"@,
            SalesClassification::Recurring => "recurring"@,
        }
    }

    pub fn as_str(self) -> (r: &'static str)
        ensures
            r@ == self.name(),
    {
        match self {
            SalesClassification::Bookings => "bookings",
            SalesClassification::Billings => "billings",
            SalesClassification::Collections => "collections",
            SalesClassification::Adjustments => "adjustments",
            SalesClassification::Recurring => "recurring",
        }
    }
}

/// Counts of the ledger events that a backfill inserted, by source.
#[derive(Clone, Copy, Debug)]
pub struct BackfillResult {
    pub deal_created: u64,
    pub invoice_issued: u64,
    pub payment_collected: u64,
    pub credit_note_created: u64,
    pub refund_completed: u64,
    pub subscription_created: u64,
}

/// A value recorded with a ledger event.
#[derive(Clone, Debug)]
pub enum MetadataValue {
    Text(String),
    Int(i64),
    Flag(bool),
    SubscriptionStatus(SubscriptionStatus),
    CreditNoteStatus(CreditNoteStatus),
}

/// One named value recorded with a ledger event.
#[derive(Clone, Debug)]
pub struct MetadataEntry {
    pub key: &'static str,
    pub value: MetadataValue,
}

/// A ledger event that the billing rules ask to record.
#[derive(Clone, Debug)]
pub struct SalesEventSpec {
    pub event_type: &'static str,
    pub classification: SalesClassification,
    pub amount_subtotal: Dec,
    pub amount_tax: Dec,
    pub amount_total: Dec,
    pub currency: String,
    pub customer_id: Option<String>,
    pub subscription_id: Option<String>,
    pub invoice_id: Option<String>,
    pub payment_id: Option<String>,
    pub source_table: &'static str,
    pub source_id: String,
    /// What the event records besides its amounts, by name.
    pub metadata: Vec<MetadataEntry>,
}

} // verus!
