//! The operations of the library, each over the stores it owns.

pub mod book;
pub mod checkout;
pub mod user;
