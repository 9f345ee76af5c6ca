//! What each request does, once it has been read and its caller is known.

pub mod book;
pub mod checkout;
pub mod user;
