//! The shapes of the rows that the stores hold and that queries hand out.

pub mod model;
