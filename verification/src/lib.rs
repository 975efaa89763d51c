//! Billing rules, verified with Verus: invoices and their totals, coupons, customer
//! credit, credit notes, dunning, the subscription lifecycle and its renewals,
//! auto-charging and checkout with payment providers, the printed invoice, revenue
//! analytics, and authentication.
//!
//! Amounts are decimals (`money::Dec`), instants are Unix seconds (`time`), and each
//! decision of the service layer is a function with a contract. Storage and providers
//! are reached through the repository traits of each module.
pub mod money;
pub mod text;
pub mod time;
pub mod error;
pub mod models;
pub mod billing;
pub mod auth;
pub mod analytics;
