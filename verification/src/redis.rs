//! The shapes of what the key-value store holds.

use crate::error::AppError;
use vstd::prelude::*;

verus! {

/// A value of the key-value store.
pub trait RedisValue {
    /// The text under which the value is stored.
    fn inner(&self) -> String;
}

/// A key of the key-value store, with the kind of value that it leads to.
pub trait RedisKey {
    type Value: RedisValue + TryFrom<String, Error = AppError>;

    /// The text of the key.
    fn inner(&self) -> String;
}

} // verus!
