//! One page of a longer list.

use vstd::prelude::*;

verus! {

/// The items of one page, with the size of the whole list and the window
/// that was asked for.
#[derive(Debug)]
pub struct PaginatedList<T> {
    pub total: i64,
    pub limit: i64,
    pub offset: i64,
    pub items: Vec<T>,
}

} // verus!
