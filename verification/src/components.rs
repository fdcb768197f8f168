//! Names for the parts of a running node.
//!
//! The parts themselves (the client, the network, the task manager and so on) live with whoever
//! drives a start-up. The driver files each part under a number when it is made, tells the
//! start-up the number, and finds the part again by it. Every kind of part has a name type of its
//! own, so one kind cannot be handed over in place of another.
use vstd::prelude::*;

verus! {

/// The name of a node configuration.
#[derive(Clone, Copy, Debug, PartialEq, Eq, Structural)]
pub struct ConfigId(pub u64);

/// The name of a list of telemetry endpoints.
#[derive(Clone, Copy, Debug, PartialEq, Eq, Structural)]
pub struct EndpointsId(pub u64);

/// The name of a Prometheus registry.
#[derive(Clone, Copy, Debug, PartialEq, Eq, Structural)]
pub struct RegistryId(pub u64);

/// The name of a telemetry worker.
#[derive(Clone, Copy, Debug, PartialEq, Eq, Structural)]
pub struct TelemetryWorkerId(pub u64);

/// The name of a handle to a telemetry worker.
#[derive(Clone, Copy, Debug, PartialEq, Eq, Structural)]
pub struct TelemetryWorkerHandleId(pub u64);

/// The name of a telemetry instance.
#[derive(Clone, Copy, Debug, PartialEq, Eq, Structural)]
pub struct TelemetryId(pub u64);

/// The name of a full client.
#[derive(Clone, Copy, Debug, PartialEq, Eq, Structural)]
pub struct ClientId(pub u64);

/// The name of a full backend.
#[derive(Clone, Copy, Debug, PartialEq, Eq, Structural)]
pub struct BackendId(pub u64);

/// The name of a keystore container.
#[derive(Clone, Copy, Debug, PartialEq, Eq, Structural)]
pub struct KeystoreId(pub u64);

/// The name of a task manager.
#[derive(Clone, Copy, Debug, PartialEq, Eq, Structural)]
pub struct TaskManagerId(pub u64);

/// The name of a fork choice rule.
#[derive(Clone, Copy, Debug, PartialEq, Eq, Structural)]
pub struct SelectChainId(pub u64);

/// The name of a transaction pool.
#[derive(Clone, Copy, Debug, PartialEq, Eq, Structural)]
pub struct TransactionPoolId(pub u64);

/// The name of an import queue.
#[derive(Clone, Copy, Debug, PartialEq, Eq, Structural)]
pub struct ImportQueueId(pub u64);

/// The name of an import queue that the network and the collator share.
#[derive(Clone, Copy, Debug, PartialEq, Eq, Structural)]
pub struct SharedImportQueueId(pub u64);

/// The name of a relay chain full node, with its client, its network and its backend.
#[derive(Clone, Copy, Debug, PartialEq, Eq, Structural)]
pub struct RelayChainNodeId(pub u64);

/// The name of a block announcement validator.
#[derive(Clone, Copy, Debug, PartialEq, Eq, Structural)]
pub struct AnnounceValidatorId(pub u64);

/// The name of a network service.
#[derive(Clone, Copy, Debug, PartialEq, Eq, Structural)]
pub struct NetworkId(pub u64);

/// The name of the sender of system RPC requests.
#[derive(Clone, Copy, Debug, PartialEq, Eq, Structural)]
pub struct SystemRpcId(pub u64);

/// The name of a network starter.
#[derive(Clone, Copy, Debug, PartialEq, Eq, Structural)]
pub struct NetworkStarterId(pub u64);

/// The name of a proposer factory.
#[derive(Clone, Copy, Debug, PartialEq, Eq, Structural)]
pub struct ProposerFactoryId(pub u64);

/// The name of a parachain consensus.
#[derive(Clone, Copy, Debug, PartialEq, Eq, Structural)]
pub struct ConsensusId(pub u64);

/// The name of an instant seal authorship task.
#[derive(Clone, Copy, Debug, PartialEq, Eq, Structural)]
pub struct SealTaskId(pub u64);

/// The name of a native executor other than the template's own.
#[derive(Clone, Copy, Debug, PartialEq, Eq, Structural)]
pub struct NativeExecutorId(pub u64);

/// The name of a runtime API other than the template's own.
#[derive(Clone, Copy, Debug, PartialEq, Eq, Structural)]
pub struct RuntimeApiId(pub u64);

/// The number of a parachain on its relay chain.
#[derive(Clone, Copy, Debug, PartialEq, Eq, Structural)]
pub struct ParaId(pub u32);

/// A handle that tasks are spawned through.
#[derive(Clone, Copy, Debug, PartialEq, Eq, Structural)]
pub struct SpawnHandle {
    /// The task manager that the tasks belong to.
    pub task_manager: TaskManagerId,
    /// Whether the tasks are essential: the end of an essential task stops the node, the end of
    /// any other does not.
    pub essential: bool,
}

/// The parts that come with a new full client.
#[derive(Clone, Copy, Debug, PartialEq, Eq, Structural)]
pub struct FullParts {
    pub client: ClientId,
    pub backend: BackendId,
    pub keystore_container: KeystoreId,
    pub task_manager: TaskManagerId,
}

/// The parts that come with a new network.
#[derive(Clone, Copy, Debug, PartialEq, Eq, Structural)]
pub struct NetworkParts {
    pub network: NetworkId,
    pub system_rpc_tx: SystemRpcId,
    pub network_starter: NetworkStarterId,
}

/// What every kind of node is built on.
#[derive(Clone, Copy, Debug, PartialEq, Eq, Structural)]
pub struct PartialComponents {
    pub client: ClientId,
    pub backend: BackendId,
    pub task_manager: TaskManagerId,
    pub keystore_container: KeystoreId,
    pub select_chain: SelectChainId,
    pub import_queue: ImportQueueId,
    pub transaction_pool: TransactionPoolId,
    pub telemetry: Option<TelemetryId>,
    pub telemetry_worker_handle: Option<TelemetryWorkerHandleId>,
}

/// A started parachain node.
#[derive(Clone, Copy, Debug, PartialEq, Eq, Structural)]
pub struct ParachainNode {
    pub task_manager: TaskManagerId,
    pub client: ClientId,
}

} // verus!
