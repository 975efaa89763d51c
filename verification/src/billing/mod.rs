//! Billing: invoices, coupons, credits, credit notes, dunning, lifecycle, charges and checkout.
pub mod invoices;
pub mod auto_charge;
pub mod credits;
pub mod lifecycle;
pub mod coupons;
pub mod credit_notes;
pub mod dunning;
pub mod checkout;
pub mod invoice_pdf;
pub mod payment_methods;
