//! The library as its callers see it: requests, responses and the caller's
//! identity.

pub mod extractor;
pub mod handler;
pub mod model;
pub mod validation;
