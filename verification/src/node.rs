//! What the parts that every node is built on are used for, in whichever kind of node.
use crate::action::{NetworkImportQueue, NetworkParams, TasksParams};
use crate::components::{AnnounceValidatorId, NetworkParts, PartialComponents, SpawnHandle};
use crate::config::Configuration;
use crate::rpc::RpcExtensions;
use vstd::prelude::*;

verus! {

impl PartialComponents {
    /// What the node's network is made with. No node serves a light client or offers warp sync.
    pub open spec fn network(
        self,
        config: Configuration,
        import_queue: NetworkImportQueue,
        block_announce_validator: Option<AnnounceValidatorId>,
    ) -> NetworkParams {
        NetworkParams {
            config: config.id,
            client: self.client,
            transaction_pool: self.transaction_pool,
            spawn_handle: SpawnHandle { task_manager: self.task_manager, essential: false },
            import_queue,
            on_demand: false,
            block_announce_validator,
            warp_sync: false,
        }
    }

    /// What the tasks that every node runs are spawned with. The RPC extensions are served from
    /// the node's own client and pool.
    pub open spec fn tasks(self, config: Configuration, network: NetworkParts) -> TasksParams {
        TasksParams {
            config: config.id,
            client: self.client,
            backend: self.backend,
            task_manager: self.task_manager,
            keystore: self.keystore_container,
            transaction_pool: self.transaction_pool,
            rpc_extensions_builder: RpcExtensions {
                client: self.client,
                pool: self.transaction_pool,
            },
            network: network.network,
            system_rpc_tx: network.system_rpc_tx,
            telemetry: self.telemetry,
            on_demand: false,
            remote_blockchain: false,
        }
    }

    /// Gathers what the node's network is made with.
    pub fn network_params(
        &self,
        config: &Configuration,
        import_queue: NetworkImportQueue,
        block_announce_validator: Option<AnnounceValidatorId>,
    ) -> (params: NetworkParams)
        ensures
            params == self.network(*config, import_queue, block_announce_validator),
    {
        NetworkParams {
            config: config.id,
            client: self.client,
            transaction_pool: self.transaction_pool,
            spawn_handle: SpawnHandle { task_manager: self.task_manager, essential: false },
            import_queue,
            on_demand: false,
            block_announce_validator,
            warp_sync: false,
        }
    }

    /// Gathers what the tasks that every node runs are spawned with.
    pub fn tasks_params(&self, config: &Configuration, network: &NetworkParts) -> (params:
        TasksParams)
        ensures
            params == self.tasks(*config, *network),
    {
        TasksParams {
            config: config.id,
            client: self.client,
            backend: self.backend,
            task_manager: self.task_manager,
            keystore: self.keystore_container,
            transaction_pool: self.transaction_pool,
            rpc_extensions_builder: RpcExtensions {
                client: self.client,
                pool: self.transaction_pool,
            },
            network: network.network,
            system_rpc_tx: network.system_rpc_tx,
            telemetry: self.telemetry,
            on_demand: false,
            remote_blockchain: false,
        }
    }
}

} // verus!
