//! Revenue analytics and the sales ledger.
pub mod sales_ledger;
pub mod service;
