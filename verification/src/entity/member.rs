//! The `member` table: who belongs to which group.

use vstd::prelude::*;

verus! {

/// A row of `member`.
#[derive(Debug, Clone, PartialEq, Eq)]
pub struct Model {
    pub id: u128,
    pub user_id: u128,
    pub is_admin: bool,
    pub group_id: u128,
}

} // verus!
