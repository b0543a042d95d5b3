//! The `session` table: which user a signed-in browser session belongs to.

use vstd::prelude::*;

verus! {

/// A row of `session`.
#[derive(Debug, Clone, PartialEq, Eq)]
pub struct Model {
    pub id: u128,
    pub session_id: String,
    pub user_id: u128,
}

} // verus!
