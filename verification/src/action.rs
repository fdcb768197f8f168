//! What a start-up asks of its driver, and what the driver answers.
//!
//! A start-up does no work on the outside world itself. It asks its driver for one [`Action`] at
//! a time, and the driver carries it out and comes back with a [`Reply`].
use crate::components::{
    AnnounceValidatorId, BackendId, ClientId, ConfigId, ConsensusId, EndpointsId, FullParts,
    ImportQueueId, KeystoreId, NetworkId, NetworkParts, NetworkStarterId, ParaId,
    ProposerFactoryId, RegistryId, RelayChainNodeId, SealTaskId, SelectChainId,
    SharedImportQueueId, SpawnHandle, SystemRpcId, TaskManagerId, TelemetryId,
    TelemetryWorkerHandleId, TelemetryWorkerId, TransactionPoolId,
};
use crate::config::Configuration;
use crate::consensus::ConsensusParams;
use crate::error::{RelayChainError, ServiceError, ServiceErrorView, relay_chain_failure};
use crate::executor::{ExecutorSettings, RuntimeApi};
use crate::inherents::{ImportInherents, InstantSealInherents, ParachainInherents};
use crate::rpc::RpcExtensions;
use vstd::prelude::*;

verus! {

/// The name that a spawned task goes by.
#[derive(Clone, Copy, Debug, PartialEq, Eq, Structural)]
pub enum TaskName {
    Telemetry,
    InstantSeal,
}

impl TaskName {
    /// The name, spelled out.
    pub open spec fn spelled(self) -> Seq<char> {
        match self {
            TaskName::Telemetry => "telemetry"@,
            TaskName::InstantSeal => "instant-seal"@,
        }
    }

    /// Spells the name out.
    pub fn as_str(&self) -> (name: &'static str)
        ensures
            name@ == self.spelled(),
    {
        match self {
            TaskName::Telemetry => "telemetry",
            TaskName::InstantSeal => "instant-seal",
        }
    }
}

/// The import queue that a network feeds.
#[derive(Clone, Copy, Debug, PartialEq, Eq, Structural)]
pub enum NetworkImportQueue {
    /// The queue goes to the network alone.
    Own(ImportQueueId),
    /// The queue is shared with a collator.
    Shared(SharedImportQueueId),
}

/// What a transaction pool is made with.
#[derive(Clone, Copy, Debug, PartialEq, Eq, Structural)]
pub struct TransactionPoolParams {
    /// The configuration whose pool options are used.
    pub options: ConfigId,
    pub is_validator: bool,
    pub prometheus: Option<RegistryId>,
    /// What the pool's tasks are spawned through.
    pub spawner: SpawnHandle,
    pub client: ClientId,
}

/// What an import queue is made with.
#[derive(Clone, Copy, Debug, PartialEq, Eq, Structural)]
pub struct ImportQueueParams {
    pub client: ClientId,
    pub block_import: ClientId,
    /// What imported blocks are checked against.
    pub create_inherent_data_providers: ImportInherents,
    /// What the queue's tasks are spawned through.
    pub spawner: SpawnHandle,
    pub registry: Option<RegistryId>,
}

/// What a block announcement validator is made with.
#[derive(Clone, Copy, Debug, PartialEq, Eq, Structural)]
pub struct AnnounceValidatorParams {
    /// The node whose client is asked about the relay chain.
    pub relay_chain_client: RelayChainNodeId,
    pub para_id: ParaId,
    /// The node whose network tells whether the relay chain is in sync.
    pub relay_chain_sync_oracle: RelayChainNodeId,
    /// The node whose backend holds the relay chain's state.
    pub relay_chain_backend: RelayChainNodeId,
}

/// What a network is made with.
#[derive(Clone, Copy, Debug, PartialEq, Eq, Structural)]
pub struct NetworkParams {
    pub config: ConfigId,
    pub client: ClientId,
    pub transaction_pool: TransactionPoolId,
    pub spawn_handle: SpawnHandle,
    pub import_queue: NetworkImportQueue,
    /// Whether the network fetches data on demand for a light client.
    pub on_demand: bool,
    pub block_announce_validator: Option<AnnounceValidatorId>,
    /// Whether the network offers warp sync.
    pub warp_sync: bool,
}

/// What the off-chain workers are made with.
#[derive(Clone, Copy, Debug, PartialEq, Eq, Structural)]
pub struct OffchainWorkersParams {
    pub config: ConfigId,
    pub spawn_handle: SpawnHandle,
    pub client: ClientId,
    pub network: NetworkId,
}

/// What the tasks that every node runs are spawned with.
#[derive(Clone, Copy, Debug, PartialEq, Eq, Structural)]
pub struct TasksParams {
    pub config: ConfigId,
    pub client: ClientId,
    pub backend: BackendId,
    pub task_manager: TaskManagerId,
    pub keystore: KeystoreId,
    pub transaction_pool: TransactionPoolId,
    pub rpc_extensions_builder: RpcExtensions,
    pub network: NetworkId,
    pub system_rpc_tx: SystemRpcId,
    pub telemetry: Option<TelemetryId>,
    /// Whether data is fetched on demand for a light client.
    pub on_demand: bool,
    /// Whether a remote blockchain is consulted.
    pub remote_blockchain: bool,
}

/// What a proposer factory is made with.
#[derive(Clone, Copy, Debug, PartialEq, Eq, Structural)]
pub struct ProposerParams {
    /// Whether proposers record a storage proof.
    pub proof_recording: bool,
    pub spawn_handle: SpawnHandle,
    pub client: ClientId,
    pub transaction_pool: TransactionPoolId,
    pub prometheus: Option<RegistryId>,
    pub telemetry: Option<TelemetryId>,
}

/// What the Nimbus consensus is made with.
#[derive(Clone, Copy, Debug, PartialEq, Eq, Structural)]
pub struct NimbusParams {
    pub para_id: ParaId,
    pub proposer_factory: ProposerFactoryId,
    pub block_import: ClientId,
    pub relay_chain_client: RelayChainNodeId,
    pub relay_chain_backend: RelayChainNodeId,
    pub parachain_client: ClientId,
    pub keystore: KeystoreId,
    /// Whether to author without asking first whether this node is eligible.
    pub skip_prediction: bool,
    /// What authored blocks carry.
    pub create_inherent_data_providers: ParachainInherents,
}

/// What a collator is started with.
#[derive(Clone, Copy, Debug, PartialEq, Eq, Structural)]
pub struct CollatorParams {
    pub para_id: ParaId,
    pub block_status: ClientId,
    /// The network that blocks are announced on.
    pub announce_block: NetworkId,
    pub client: ClientId,
    pub task_manager: TaskManagerId,
    pub relay_chain_full_node: RelayChainNodeId,
    pub spawner: SpawnHandle,
    pub parachain_consensus: ConsensusId,
    pub import_queue: SharedImportQueueId,
}

/// What a full node is started with.
#[derive(Clone, Copy, Debug, PartialEq, Eq, Structural)]
pub struct FullNodeParams {
    pub client: ClientId,
    /// The network that blocks are announced on.
    pub announce_block: NetworkId,
    pub task_manager: TaskManagerId,
    pub para_id: ParaId,
    pub relay_chain_full_node: RelayChainNodeId,
}

/// What an instant seal authorship task is made with.
#[derive(Clone, Copy, Debug, PartialEq, Eq, Structural)]
pub struct InstantSealParams {
    pub block_import: ClientId,
    pub env: ProposerFactoryId,
    pub client: ClientId,
    pub pool: TransactionPoolId,
    pub select_chain: SelectChainId,
    /// Whether sealed blocks carry digests of a consensus engine.
    pub consensus_data_provider: bool,
    /// What sealed blocks carry.
    pub create_inherent_data_providers: InstantSealInherents,
}

/// One thing that a start-up asks its driver to do.
#[derive(Clone, Copy, Debug, PartialEq, Eq, Structural)]
pub enum Action {
    /// Make a telemetry worker whose channel holds `buffer_size` messages.
    NewTelemetryWorker { buffer_size: usize },
    /// Make a telemetry instance of the worker that sends to the endpoints.
    NewTelemetry { worker: TelemetryWorkerId, endpoints: EndpointsId },
    /// Make the client and what comes with it.
    NewFullParts {
        config: ConfigId,
        telemetry: Option<TelemetryId>,
        runtime_api: RuntimeApi,
        executor: ExecutorSettings,
    },
    /// Take a handle to the telemetry worker.
    NewTelemetryWorkerHandle { worker: TelemetryWorkerId },
    /// Spawn the telemetry worker as a task, on a thread for blocking work if `blocking`.
    SpawnTelemetryWorker {
        spawn_handle: SpawnHandle,
        name: TaskName,
        blocking: bool,
        worker: TelemetryWorkerId,
    },
    /// Make the fork choice rule that follows the longest chain.
    NewLongestChain { backend: BackendId },
    /// Make the transaction pool.
    NewTransactionPool(TransactionPoolParams),
    /// Make the import queue.
    NewImportQueue(ImportQueueParams),
    /// Prepare the configuration for a parachain node.
    PrepareNodeConfig { config: ConfigId },
    /// Build the relay chain full node.
    BuildRelayChainNode {
        config: ConfigId,
        telemetry_worker_handle: Option<TelemetryWorkerHandleId>,
    },
    /// Build the validator of block announcements.
    BuildAnnounceValidator(AnnounceValidatorParams),
    /// Make the import queue one that can be shared.
    ShareImportQueue { import_queue: ImportQueueId },
    /// Build the network.
    BuildNetwork(NetworkParams),
    /// Build the off-chain workers.
    BuildOffchainWorkers(OffchainWorkersParams),
    /// Spawn the tasks that every node runs.
    SpawnTasks(TasksParams),
    /// Make the proposer factory.
    NewProposerFactory(ProposerParams),
    /// Build the node's consensus, in whichever way the driver builds one.
    BuildConsensus(ConsensusParams),
    /// Build the Nimbus consensus.
    BuildNimbusConsensus(NimbusParams),
    /// Start the collator.
    StartCollator(CollatorParams),
    /// Start the full node.
    StartFullNode(FullNodeParams),
    /// Make the task that seals a block for every transaction.
    NewInstantSeal(InstantSealParams),
    /// Spawn the seal task, on a thread for blocking work if `blocking`.
    SpawnInstantSeal {
        spawn_handle: SpawnHandle,
        name: TaskName,
        blocking: bool,
        task: SealTaskId,
    },
    /// Start the network.
    StartNetwork { network_starter: NetworkStarterId },
}

/// What an action that was carried out brought.
#[derive(Clone, Copy, Debug, PartialEq, Eq, Structural)]
pub enum Answer {
    /// Nothing but that it is done.
    Done,
    TelemetryWorker(TelemetryWorkerId),
    Telemetry(TelemetryId),
    FullParts(FullParts),
    TelemetryWorkerHandle(TelemetryWorkerHandleId),
    SelectChain(SelectChainId),
    TransactionPool(TransactionPoolId),
    ImportQueue(ImportQueueId),
    Configuration(Configuration),
    RelayChainNode(RelayChainNodeId),
    AnnounceValidator(AnnounceValidatorId),
    SharedImportQueue(SharedImportQueueId),
    Network(NetworkParts),
    ProposerFactory(ProposerFactoryId),
    Consensus(ConsensusId),
    SealTask(SealTaskId),
}

/// What a driver comes back with.
#[derive(Debug)]
pub enum Reply<E> {
    /// The action was carried out.
    Given(Answer),
    /// The action failed.
    Failed(E),
    /// The relay chain node could not be built.
    RelayChainFailed(RelayChainError<E>),
}

/// Whether `answer` is of the kind that carrying out `action` brings.
pub open spec fn brings(action: Action, answer: Answer) -> bool {
    match action {
        Action::NewTelemetryWorker { .. } => answer is TelemetryWorker,
        Action::NewTelemetry { .. } => answer is Telemetry,
        Action::NewFullParts { .. } => answer is FullParts,
        Action::NewTelemetryWorkerHandle { .. } => answer is TelemetryWorkerHandle,
        Action::NewLongestChain { .. } => answer is SelectChain,
        Action::NewTransactionPool(_) => answer is TransactionPool,
        Action::NewImportQueue(_) => answer is ImportQueue,
        Action::PrepareNodeConfig { .. } => answer is Configuration,
        Action::BuildRelayChainNode { .. } => answer is RelayChainNode,
        Action::BuildAnnounceValidator(_) => answer is AnnounceValidator,
        Action::ShareImportQueue { .. } => answer is SharedImportQueue,
        Action::BuildNetwork(_) => answer is Network,
        Action::NewProposerFactory(_) => answer is ProposerFactory,
        Action::BuildConsensus(_) | Action::BuildNimbusConsensus(_) => answer is Consensus,
        Action::NewInstantSeal(_) => answer is SealTask,
        Action::SpawnTelemetryWorker { .. } | Action::BuildOffchainWorkers(_)
        | Action::SpawnTasks(_) | Action::StartCollator(_) | Action::StartFullNode(_)
        | Action::SpawnInstantSeal { .. } | Action::StartNetwork { .. } => answer is Done,
    }
}

/// Whether carrying out `action` can fail with a failure of the service.
pub open spec fn can_fail(action: Action) -> bool {
    ||| action is NewTelemetryWorker
    ||| action is NewFullParts
    ||| action is NewImportQueue
    ||| action is BuildNetwork
    ||| action is SpawnTasks
    ||| action is BuildConsensus
    ||| action is StartCollator
    ||| action is StartFullNode
}

/// Whether `reply` can come back when `action` was asked for.
pub open spec fn fits<E>(action: Action, reply: Reply<E>) -> bool {
    match reply {
        Reply::Given(answer) => brings(action, answer),
        Reply::Failed(_) => can_fail(action),
        Reply::RelayChainFailed(_) => action is BuildRelayChainNode,
    }
}

/// The failure of the start-up that `reply` means, if it means one.
pub open spec fn failure_of<E>(reply: Reply<E>) -> Option<ServiceErrorView<E>> {
    match reply {
        Reply::Given(_) => None,
        Reply::Failed(e) => Some(ServiceErrorView::Service(e)),
        Reply::RelayChainFailed(e) => Some(relay_chain_failure(e)),
    }
}

impl Action {
    /// Whether carrying the action out brings an answer of this kind.
    pub fn brings(&self, answer: &Answer) -> (fitting: bool)
        ensures
            fitting == brings(*self, *answer),
    {
        match self {
            Action::NewTelemetryWorker { .. } => matches!(answer, Answer::TelemetryWorker(_)),
            Action::NewTelemetry { .. } => matches!(answer, Answer::Telemetry(_)),
            Action::NewFullParts { .. } => matches!(answer, Answer::FullParts(_)),
            Action::NewTelemetryWorkerHandle { .. } => {
                matches!(answer, Answer::TelemetryWorkerHandle(_))
            },
            Action::NewLongestChain { .. } => matches!(answer, Answer::SelectChain(_)),
            Action::NewTransactionPool(_) => matches!(answer, Answer::TransactionPool(_)),
            Action::NewImportQueue(_) => matches!(answer, Answer::ImportQueue(_)),
            Action::PrepareNodeConfig { .. } => matches!(answer, Answer::Configuration(_)),
            Action::BuildRelayChainNode { .. } => matches!(answer, Answer::RelayChainNode(_)),
            Action::BuildAnnounceValidator(_) => matches!(answer, Answer::AnnounceValidator(_)),
            Action::ShareImportQueue { .. } => matches!(answer, Answer::SharedImportQueue(_)),
            Action::BuildNetwork(_) => matches!(answer, Answer::Network(_)),
            Action::NewProposerFactory(_) => matches!(answer, Answer::ProposerFactory(_)),
            Action::BuildConsensus(_) | Action::BuildNimbusConsensus(_) => {
                matches!(answer, Answer::Consensus(_))
            },
            Action::NewInstantSeal(_) => matches!(answer, Answer::SealTask(_)),
            Action::SpawnTelemetryWorker { .. }
            | Action::BuildOffchainWorkers(_)
            | Action::SpawnTasks(_)
            | Action::StartCollator(_)
            | Action::StartFullNode(_)
            | Action::SpawnInstantSeal { .. }
            | Action::StartNetwork { .. } => matches!(answer, Answer::Done),
        }
    }

    /// Whether carrying the action out can fail with a failure of the service.
    pub fn can_fail(&self) -> (fallible: bool)
        ensures
            fallible == can_fail(*self),
    {
        matches!(
            self,
            Action::NewTelemetryWorker { .. }
                | Action::NewFullParts { .. }
                | Action::NewImportQueue(_)
                | Action::BuildNetwork(_)
                | Action::SpawnTasks(_)
                | Action::BuildConsensus(_)
                | Action::StartCollator(_)
                | Action::StartFullNode(_)
        )
    }

    /// Whether this reply can come back when the action was asked for.
    pub fn fits<E>(&self, reply: &Reply<E>) -> (fitting: bool)
        ensures
            fitting == fits(*self, *reply),
    {
        match reply {
            Reply::Given(answer) => self.brings(answer),
            Reply::Failed(_) => self.can_fail(),
            Reply::RelayChainFailed(_) => matches!(self, Action::BuildRelayChainNode { .. }),
        }
    }
}

impl<E> Reply<E> {
    /// The answer that the reply brings, or else the failure of the start-up that it means.
    pub fn into_result(self) -> (result: Result<Answer, ServiceError<E>>)
        ensures
            match result {
                Ok(answer) => self == Reply::<E>::Given(answer),
                Err(error) => failure_of(self) == Some(error@),
            },
    {
        match self {
            Reply::Given(answer) => Ok(answer),
            Reply::Failed(e) => Err(ServiceError::Service(e)),
            Reply::RelayChainFailed(e) => Err(e.into_service_error()),
        }
    }
}

} // verus!
