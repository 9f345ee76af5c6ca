//! The values that the library's operations take and return.

pub mod auth;
pub mod book;
pub mod checkout;
pub mod list;
pub mod role;
pub mod user;
