//! Verified core of an e-commerce order service: request validation,
//! access rules, order pricing and stock bookkeeping, order status rules,
//! product updates, report selection and stock-alert messages.
//!
//! Everything that talks to the network, the database or the message bus
//! lives outside this crate; the functions here take the values those
//! services return and decide what happens next.

pub mod alert;
pub mod auth;
pub mod money;
pub mod order;
pub mod product;
pub mod reply;
pub mod report;
pub mod text;
