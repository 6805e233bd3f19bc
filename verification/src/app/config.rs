use vstd::prelude::*;

verus! {

/// Length of secure session access tokens.
pub const TOKEN_LENGTH: usize = 32;

} // verus!
