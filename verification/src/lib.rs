//! The persistence core of a coffee shop's order management.
//!
//! The crate holds the records of the shop (customers, drinks, employees,
//! extras, orders with their items and the extras of each item) in two forms,
//! one as the store holds them and one as callers see them, the codec between
//! values and the text that the store keeps for them, the rules of the
//! operations on the store, and the creation of an order with all that belongs
//! to it as one unit.
//!
//! The crate does no input or output. Where the store has to be read or
//! written, the caller does it and hands the outcome in.

pub mod datetime;
pub mod decimal;
pub mod error;
pub mod ids;
pub mod models;
pub mod operations;
pub mod text;
pub mod transaction;
