//! The body of the group endpoint.

use vstd::prelude::*;

verus! {

/// The JSON body of a request that creates a group.
#[derive(Debug, Clone, PartialEq, Eq)]
pub struct Group {
    pub name: String,
    pub icon_path: Option<String>,
    pub theme: String,
}

} // verus!
