//! What the node's RPC extensions are built from.

use std::sync::Arc;
use vstd::prelude::*;

verus! {

/// The dependencies of the full RPC set: the chain's client and the
/// transaction pool, both shared.
pub struct FullDeps<C, P> {
    /// The client of the chain.
    pub client: Arc<C>,
    /// The transaction pool.
    pub pool: Arc<P>,
}

} // verus!
