pub mod address;
pub mod arena;
pub mod authority;
pub mod dispatch;
pub mod error;
pub mod laws;
pub mod ledger;
pub mod lifecycle;
pub mod operations;
pub mod transaction;
