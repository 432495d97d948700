//! A minimal inventory ledger: product records kept under identifiers that
//! the store issues itself, with operations to register a product, change
//! its quantity and read it back.
//!
//! `ledger` holds the mathematical model of the store and the laws that
//! hold of it; `store` holds the executable store, whose contracts are
//! stated over that model.

pub mod ledger;
pub mod product;
pub mod store;

pub use ledger::FIRST_ID;
pub use product::Product;
pub use store::{issue_id, StockManagement};
