//! The `group` table.

use vstd::prelude::*;

verus! {

/// A row of `group`.
#[derive(Debug, Clone, PartialEq, Eq)]
pub struct Model {
    pub id: u128,
    pub name: String,
    pub icon_path: Option<String>,
    pub theme: String,
}

} // verus!
