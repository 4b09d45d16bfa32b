//! Links between nodes.

use vstd::prelude::*;

verus! {

/// A directed link from the node `from_id` to the node `to_id`, owned by
/// the module that `owner` names.
#[derive(Debug)]
pub struct Link {
    pub id: i64,
    pub from_id: i64,
    pub to_id: i64,
    pub owner: String,
}

} // verus!
