//! Row types, one module for each family of tables.

pub mod book;
pub mod checkout;
