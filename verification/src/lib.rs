//! Verified core of an order-management service: sessions resolved from
//! signed tokens, a two-tier authorization policy, a repository of orders
//! and their line items with soft deletion and coalescing partial updates,
//! date-filtered listing, and assembly of the two response shapes.

pub mod admin;
pub mod clock;
pub mod errors;
pub mod item;
pub mod laws;
pub mod login;
pub mod models;
pub mod order;
pub mod policy;
pub mod query;
pub mod reporting;
pub mod respond;
pub mod session;
pub mod store;
