//! Requests and responses.

pub mod book;
pub mod checkout;
pub mod user;
