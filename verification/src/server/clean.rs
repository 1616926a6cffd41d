//! Reconciling the database with the cluster: notebooks of namespaces that
//! no user owns any more are removed, and so are repositories without
//! notebooks.
use vstd::prelude::*;

use crate::text::{decimal, u64_to_decimal};

verus! {

/// The answer to a reconciliation: how many rows the two deletes removed,
/// in decimal.
pub fn reconcile_reply(notebooks_removed: u64, repos_removed: u64) -> (r: String)
    requires
        notebooks_removed + repos_removed <= u64::MAX,
    ensures
        r@ == decimal((notebooks_removed + repos_removed) as nat),
{
    u64_to_decimal(notebooks_removed + repos_removed)
}

} // verus!
