//! Access tokens.

use vstd::prelude::*;

verus! {

/// The token that a signed-in user presents with each request.
#[derive(Debug)]
pub struct AccessToken(pub String);

} // verus!
