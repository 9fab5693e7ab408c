//! The records of the shop. Each kind has a form in which the store holds it
//! and a form in which callers see it, and the two are one thing seen twice:
//! they have the same view.

pub mod customer;
pub mod drink;
pub mod drink_size;
pub mod employee;
pub mod extra;
pub mod infra;
pub mod order;
pub mod order_item_extras;
pub mod order_items;
pub mod order_status;
