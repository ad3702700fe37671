//! Order desk of a portrait booth: customers order prints and pay by cash or
//! card, staff upload the originals, process them and mark the order ready.
//!
//! The crate holds the rules of that workflow as verified code: the price of
//! an order, the status machine with its guarded updates, the count of
//! uploaded files per order, and who may do what. `database` holds the
//! tables, `transition` the guarded updates, `requests`, `processing`,
//! `admin` and `auth` what people can ask for, and `laws` what holds of all
//! of it together.

pub mod admin;
pub mod auth;
pub mod bindings;
pub mod database;
pub mod error;
pub mod item_store;
pub mod laws;
pub mod mailer;
pub mod order;
pub mod order_item;
pub mod order_store;
pub mod policy;
pub mod pricing;
pub mod processing;
pub mod report;
pub mod requests;
pub mod rows;
pub mod search;
pub mod setting;
pub mod storage;
pub mod text;
pub mod transition;
pub mod user;
pub mod user_order;
pub mod user_store;
pub mod views;
