//! The RPC extensions that a node serves.
use crate::components::{ClientId, TransactionPoolId};
use vstd::prelude::*;

verus! {

/// What the RPC extensions of a full node depend on. `D` tells whether calls that are unsafe to
/// serve to the public are denied.
#[derive(Clone, Copy, Debug, PartialEq, Eq)]
pub struct FullDeps<D> {
    pub client: ClientId,
    pub pool: TransactionPoolId,
    pub deny_unsafe: D,
}

/// What the RPC extensions are made of, whoever they are served to.
#[derive(Clone, Copy, Debug, PartialEq, Eq, Structural)]
pub struct RpcExtensions {
    pub client: ClientId,
    pub pool: TransactionPoolId,
}

impl RpcExtensions {
    /// The dependencies of the extensions that are served under `deny_unsafe`.
    pub fn full_deps<D>(&self, deny_unsafe: D) -> (deps: FullDeps<D>)
        ensures
            deps.client == self.client,
            deps.pool == self.pool,
            deps.deny_unsafe == deny_unsafe,
    {
        FullDeps { client: self.client, pool: self.pool, deny_unsafe }
    }
}

} // verus!
