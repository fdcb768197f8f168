//! How the parts of a node are handed from one action to the next.
use crate::action::{Action, NetworkImportQueue, Reply};
use crate::components::{
    AnnounceValidatorId, BackendId, ClientId, ConfigId, ConsensusId, EndpointsId, ImportQueueId,
    KeystoreId, NetworkId, NetworkStarterId, ProposerFactoryId, RegistryId, RelayChainNodeId,
    SealTaskId, SelectChainId, SharedImportQueueId, SystemRpcId, TaskManagerId, TelemetryId,
    TelemetryWorkerHandleId, TelemetryWorkerId, TransactionPoolId,
};
use crate::config::Configuration;
use crate::executor::Runtime;
use crate::instant_seal::StartInstantSealNode;
use crate::laws::plans::{
    in_order, law_instant_seal_in_order, law_node_in_order, law_partial_in_order, place,
};
use crate::laws::runs::{attempted, law_run_follows_plan, run};
use crate::parachain::StartNode;
use crate::partial::NewPartial;
use crate::startup::{Answers, StartupView};
use vstd::prelude::*;

verus! {

/// A part of a node, of whichever kind.
pub enum Part {
    Config(ConfigId),
    Endpoints(EndpointsId),
    Registry(RegistryId),
    TelemetryWorker(TelemetryWorkerId),
    TelemetryWorkerHandle(TelemetryWorkerHandleId),
    Telemetry(TelemetryId),
    Client(ClientId),
    Backend(BackendId),
    Keystore(KeystoreId),
    TaskManager(TaskManagerId),
    SelectChain(SelectChainId),
    TransactionPool(TransactionPoolId),
    ImportQueue(ImportQueueId),
    SharedImportQueue(SharedImportQueueId),
    RelayChainNode(RelayChainNodeId),
    AnnounceValidator(AnnounceValidatorId),
    Network(NetworkId),
    SystemRpc(SystemRpcId),
    NetworkStarter(NetworkStarterId),
    ProposerFactory(ProposerFactoryId),
    Consensus(ConsensusId),
    SealTask(SealTaskId),
}

/// Whether `part` is a registry that is there.
pub open spec fn is_registry(part: Part, registry: Option<RegistryId>) -> bool {
    registry is Some && part == Part::Registry(registry->0)
}

/// Whether `part` is a telemetry instance that is there.
pub open spec fn is_telemetry(part: Part, telemetry: Option<TelemetryId>) -> bool {
    telemetry is Some && part == Part::Telemetry(telemetry->0)
}

/// Whether carrying `action` out takes `part`.
pub open spec fn uses(action: Action, part: Part) -> bool {
    match action {
        Action::NewTelemetryWorker { .. } => false,
        Action::NewTelemetry { worker, endpoints } => {
            ||| part == Part::TelemetryWorker(worker)
            ||| part == Part::Endpoints(endpoints)
        },
        Action::NewFullParts { config, telemetry, .. } => {
            ||| part == Part::Config(config)
            ||| is_telemetry(part, telemetry)
        },
        Action::NewTelemetryWorkerHandle { worker } => part == Part::TelemetryWorker(worker),
        Action::SpawnTelemetryWorker { spawn_handle, worker, .. } => {
            ||| part == Part::TaskManager(spawn_handle.task_manager)
            ||| part == Part::TelemetryWorker(worker)
        },
        Action::NewLongestChain { backend } => part == Part::Backend(backend),
        Action::NewTransactionPool(p) => {
            ||| part == Part::Config(p.options)
            ||| is_registry(part, p.prometheus)
            ||| part == Part::TaskManager(p.spawner.task_manager)
            ||| part == Part::Client(p.client)
        },
        Action::NewImportQueue(p) => {
            ||| part == Part::Client(p.client)
            ||| part == Part::Client(p.block_import)
            ||| part == Part::TaskManager(p.spawner.task_manager)
            ||| is_registry(part, p.registry)
        },
        Action::PrepareNodeConfig { config } => part == Part::Config(config),
        Action::BuildRelayChainNode { config, telemetry_worker_handle } => {
            ||| part == Part::Config(config)
            ||| telemetry_worker_handle is Some && part == Part::TelemetryWorkerHandle(
                telemetry_worker_handle->0,
            )
        },
        Action::BuildAnnounceValidator(p) => {
            ||| part == Part::RelayChainNode(p.relay_chain_client)
            ||| part == Part::RelayChainNode(p.relay_chain_sync_oracle)
            ||| part == Part::RelayChainNode(p.relay_chain_backend)
        },
        Action::ShareImportQueue { import_queue } => part == Part::ImportQueue(import_queue),
        Action::BuildNetwork(p) => {
            ||| part == Part::Config(p.config)
            ||| part == Part::Client(p.client)
            ||| part == Part::TransactionPool(p.transaction_pool)
            ||| part == Part::TaskManager(p.spawn_handle.task_manager)
            ||| part == (match p.import_queue {
                NetworkImportQueue::Own(id) => Part::ImportQueue(id),
                NetworkImportQueue::Shared(id) => Part::SharedImportQueue(id),
            })
            ||| p.block_announce_validator is Some && part == Part::AnnounceValidator(
                p.block_announce_validator->0,
            )
        },
        Action::BuildOffchainWorkers(p) => {
            ||| part == Part::Config(p.config)
            ||| part == Part::TaskManager(p.spawn_handle.task_manager)
            ||| part == Part::Client(p.client)
            ||| part == Part::Network(p.network)
        },
        Action::SpawnTasks(p) => {
            ||| part == Part::Config(p.config)
            ||| part == Part::Client(p.client)
            ||| part == Part::Backend(p.backend)
            ||| part == Part::TaskManager(p.task_manager)
            ||| part == Part::Keystore(p.keystore)
            ||| part == Part::TransactionPool(p.transaction_pool)
            ||| part == Part::Client(p.rpc_extensions_builder.client)
            ||| part == Part::TransactionPool(p.rpc_extensions_builder.pool)
            ||| part == Part::Network(p.network)
            ||| part == Part::SystemRpc(p.system_rpc_tx)
            ||| is_telemetry(part, p.telemetry)
        },
        Action::NewProposerFactory(p) => {
            ||| part == Part::TaskManager(p.spawn_handle.task_manager)
            ||| part == Part::Client(p.client)
            ||| part == Part::TransactionPool(p.transaction_pool)
            ||| is_registry(part, p.prometheus)
            ||| is_telemetry(part, p.telemetry)
        },
        Action::BuildConsensus(p) => {
            ||| part == Part::Client(p.client)
            ||| is_registry(part, p.prometheus_registry)
            ||| is_telemetry(part, p.telemetry)
            ||| part == Part::TaskManager(p.task_manager)
            ||| part == Part::RelayChainNode(p.relay_chain_node)
            ||| part == Part::TransactionPool(p.transaction_pool)
            ||| part == Part::Network(p.sync_oracle)
            ||| part == Part::Keystore(p.keystore)
        },
        Action::BuildNimbusConsensus(p) => {
            ||| part == Part::ProposerFactory(p.proposer_factory)
            ||| part == Part::Client(p.block_import)
            ||| part == Part::RelayChainNode(p.relay_chain_client)
            ||| part == Part::RelayChainNode(p.relay_chain_backend)
            ||| part == Part::Client(p.parachain_client)
            ||| part == Part::Keystore(p.keystore)
            ||| part == Part::RelayChainNode(p.create_inherent_data_providers.relay_chain_client)
            ||| part == Part::RelayChainNode(p.create_inherent_data_providers.relay_chain_backend)
        },
        Action::StartCollator(p) => {
            ||| part == Part::Client(p.block_status)
            ||| part == Part::Network(p.announce_block)
            ||| part == Part::Client(p.client)
            ||| part == Part::TaskManager(p.task_manager)
            ||| part == Part::RelayChainNode(p.relay_chain_full_node)
            ||| part == Part::TaskManager(p.spawner.task_manager)
            ||| part == Part::Consensus(p.parachain_consensus)
            ||| part == Part::SharedImportQueue(p.import_queue)
        },
        Action::StartFullNode(p) => {
            ||| part == Part::Client(p.client)
            ||| part == Part::Network(p.announce_block)
            ||| part == Part::TaskManager(p.task_manager)
            ||| part == Part::RelayChainNode(p.relay_chain_full_node)
        },
        Action::NewInstantSeal(p) => {
            ||| part == Part::Client(p.block_import)
            ||| part == Part::ProposerFactory(p.env)
            ||| part == Part::Client(p.client)
            ||| part == Part::TransactionPool(p.pool)
            ||| part == Part::SelectChain(p.select_chain)
        },
        Action::SpawnInstantSeal { spawn_handle, task, .. } => {
            ||| part == Part::TaskManager(spawn_handle.task_manager)
            ||| part == Part::SealTask(task)
        },
        Action::StartNetwork { network_starter } => part == Part::NetworkStarter(network_starter),
    }
}

/// Whether `part` comes with a configuration.
pub open spec fn configured(config: Configuration, part: Part) -> bool {
    ||| part == Part::Config(config.id)
    ||| config.telemetry_targets() is Some && part == Part::Endpoints(config.telemetry_targets()->0)
    ||| is_registry(part, config.prometheus_registry)
}

/// Whether an answer has brought `part`.
pub open spec fn brought(answers: Answers, part: Part) -> bool {
    match part {
        Part::Config(_) | Part::Endpoints(_) | Part::Registry(_) => {
            answers.configuration is Some && configured(answers.configuration->0, part)
        },
        Part::TelemetryWorker(id) => answers.telemetry_worker == Some(id),
        Part::TelemetryWorkerHandle(id) => answers.telemetry_worker_handle == Some(id),
        Part::Telemetry(id) => answers.telemetry == Some(id),
        Part::Client(id) => answers.full_parts is Some && answers.full_parts->0.client == id,
        Part::Backend(id) => answers.full_parts is Some && answers.full_parts->0.backend == id,
        Part::Keystore(id) => answers.full_parts is Some
            && answers.full_parts->0.keystore_container == id,
        Part::TaskManager(id) => answers.full_parts is Some && answers.full_parts->0.task_manager
            == id,
        Part::SelectChain(id) => answers.select_chain == Some(id),
        Part::TransactionPool(id) => answers.transaction_pool == Some(id),
        Part::ImportQueue(id) => answers.import_queue == Some(id),
        Part::SharedImportQueue(id) => answers.shared_import_queue == Some(id),
        Part::RelayChainNode(id) => answers.relay_chain_node == Some(id),
        Part::AnnounceValidator(id) => answers.announce_validator == Some(id),
        Part::Network(id) => answers.network is Some && answers.network->0.network == id,
        Part::SystemRpc(id) => answers.network is Some && answers.network->0.system_rpc_tx == id,
        Part::NetworkStarter(id) => answers.network is Some && answers.network->0.network_starter
            == id,
        Part::ProposerFactory(id) => answers.proposer_factory == Some(id),
        Part::Consensus(id) => answers.consensus == Some(id),
        Part::SealTask(id) => answers.seal_task == Some(id),
    }
}

/// While the parts that every node is built on are made, an action takes only what was configured
/// or what an earlier action has brought.
pub proof fn law_partial_uses_what_is_there<E>(state: StartupView<NewPartial, E>, part: Part)
    requires
        state.wf(),
        state.due() is Some,
        uses(state.due()->0, part),
    ensures
        configured(state.procedure.config, part) || brought(state.answers, part),
{
    crate::partial::lemma_partial_holds(
        state.procedure.runtime,
        state.procedure.config,
        state.answers,
        state.done,
    );
}

/// While an instant seal node is started, an action takes only what was configured or what an
/// earlier action has brought.
pub proof fn law_instant_seal_uses_what_is_there<E>(
    state: StartupView<StartInstantSealNode, E>,
    part: Part,
)
    requires
        state.wf(),
        state.due() is Some,
        uses(state.due()->0, part),
    ensures
        configured(state.procedure.config, part) || brought(state.answers, part),
{
    let config = state.procedure.config;
    let answers = state.answers;
    let front = crate::partial::partial_len(config);
    let partial = crate::partial::partial_plan(Runtime::of_template(), config, answers);
    state.procedure.lemma_holds(answers, state.done);
    assert(partial.len() == front);
    crate::partial::lemma_partial_holds(
        Runtime::of_template(),
        config,
        answers,
        if state.done < front {
            state.done
        } else {
            front
        },
    );
    if state.done < front {
        assert(state.plan()[state.done] == partial[state.done]);
    } else {
        let late = crate::instant_seal::late_plan(config, answers);
        assert(state.plan()[state.done] == late[state.done - front]);
    }
}

/// While a parachain node is started, an action takes only the two configurations that the
/// start-up was given or what an earlier action has brought.
pub proof fn law_node_uses_what_is_there<E>(state: StartupView<StartNode, E>, part: Part)
    requires
        state.wf(),
        state.due() is Some,
        uses(state.due()->0, part),
    ensures
        ({
            ||| part == Part::Config(state.procedure.parachain_config.id)
            ||| part == Part::Config(state.procedure.polkadot_config)
            ||| brought(state.answers, part)
        }),
{
    let procedure = state.procedure;
    let answers = state.answers;
    let done = state.done;
    procedure.lemma_holds(answers, done);
    if done > 0 {
        let config = answers.configuration->0;
        let front = 1 + crate::partial::partial_len(config);
        let partial = crate::partial::partial_plan(procedure.runtime, config, answers);
        assert(partial.len() == front - 1);
        crate::partial::lemma_partial_holds(
            procedure.runtime,
            config,
            answers,
            if done < front {
                done - 1
            } else {
                front - 1
            },
        );
        let node = crate::parachain::node_plan(
            procedure.polkadot_config,
            procedure.id,
            config,
            answers,
        );
        let role = crate::parachain::role_plan(
            procedure.id,
            procedure.build_consensus,
            config,
            answers,
        );
        if done < front {
            assert(state.plan()[done] == partial[done - 1]);
        } else if done < front + 5 {
            assert(state.plan()[done] == node[done - front]);
        } else if done < front + 5 + role.len() {
            assert(state.plan()[done] == role[done - front - 5]);
        }
    }
}

/// Whether carrying `action` out leaves nothing of `part` to be used again. Preparing a
/// configuration and building the relay chain node are not counted, though both take their
/// configuration for good: nothing keeps a prepared configuration from going by the number of the
/// one that it was made of, nor the two that a parachain node is given from going by the same.
pub open spec fn uses_up(action: Action, part: Part) -> bool {
    match action {
        Action::NewTelemetry { endpoints, .. } => part == Part::Endpoints(endpoints),
        Action::SpawnTelemetryWorker { worker, .. } => part == Part::TelemetryWorker(worker),
        Action::BuildRelayChainNode { telemetry_worker_handle, .. } => {
            telemetry_worker_handle is Some && part == Part::TelemetryWorkerHandle(
                telemetry_worker_handle->0,
            )
        },
        Action::ShareImportQueue { import_queue } => part == Part::ImportQueue(import_queue),
        Action::BuildNetwork(p) => {
            ||| p.import_queue is Own && part == Part::ImportQueue(p.import_queue->Own_0)
            ||| p.block_announce_validator is Some && part == Part::AnnounceValidator(
                p.block_announce_validator->0,
            )
        },
        Action::SpawnTasks(p) => {
            ||| part == Part::SystemRpc(p.system_rpc_tx)
            ||| part == Part::Config(p.config)
        },
        Action::BuildNimbusConsensus(p) => part == Part::ProposerFactory(p.proposer_factory),
        Action::NewInstantSeal(p) => {
            ||| part == Part::ProposerFactory(p.env)
            ||| part == Part::SelectChain(p.select_chain)
        },
        Action::StartCollator(p) => {
            ||| part == Part::RelayChainNode(p.relay_chain_full_node)
            ||| part == Part::Consensus(p.parachain_consensus)
            ||| part == Part::SharedImportQueue(p.import_queue)
        },
        Action::StartFullNode(p) => part == Part::RelayChainNode(p.relay_chain_full_node),
        Action::SpawnInstantSeal { task, .. } => part == Part::SealTask(task),
        Action::StartNetwork { network_starter } => part == Part::NetworkStarter(network_starter),
        _ => false,
    }
}

/// Whether no action takes a part that an earlier one has used up.
pub open spec fn nothing_reused(actions: Seq<Action>) -> bool {
    forall|i: int, j: int, part: Part|
        0 <= i < j < actions.len() && #[trigger] uses_up(actions[i], part) ==> !#[trigger] uses(
            actions[j],
            part,
        )
}

/// What an action uses up, no action with a later place takes.
proof fn lemma_order_forbids_reuse(plan: Seq<Action>, tried: int)
    requires
        in_order(plan),
        0 <= tried <= plan.len(),
        forall|i: int, j: int|
            0 <= i < plan.len() && 0 <= j < plan.len() && (#[trigger] plan[i]) is ShareImportQueue
                && (#[trigger] plan[j]) is BuildNetwork
                ==> plan[j]->BuildNetwork_0.import_queue is Shared,
    ensures
        nothing_reused(plan.take(tried)),
{
    let actions = plan.take(tried);
    assert forall|i: int, j: int, part: Part|
        0 <= i < j < actions.len() && #[trigger] uses_up(actions[i], part) implies !#[trigger] uses(
        actions[j],
        part,
    ) by {
        assert(place(plan[i]) < place(plan[j]));
    }
}

/// Whatever the driver replies, the parts that every node is built on are made without reusing
/// what is used up.
pub proof fn law_partial_reuses_nothing<E>(procedure: NewPartial, replies: Seq<Reply<E>>)
    ensures
        nothing_reused(attempted(StartupView::<NewPartial, E>::fresh(procedure), replies)),
{
    let end = run(StartupView::<NewPartial, E>::fresh(procedure), replies);
    law_run_follows_plan::<NewPartial, E>(procedure, replies);
    law_partial_in_order(procedure, end.answers);
    lemma_order_forbids_reuse(
        end.plan(),
        attempted(StartupView::<NewPartial, E>::fresh(procedure), replies).len() as int,
    );
}

/// Whatever the driver replies, a parachain node is started without reusing what is used up.
pub proof fn law_node_reuses_nothing<E>(procedure: StartNode, replies: Seq<Reply<E>>)
    ensures
        nothing_reused(attempted(StartupView::<StartNode, E>::fresh(procedure), replies)),
{
    let end = run(StartupView::<StartNode, E>::fresh(procedure), replies);
    law_run_follows_plan::<StartNode, E>(procedure, replies);
    law_node_in_order(procedure, end.answers);
    lemma_order_forbids_reuse(
        end.plan(),
        attempted(StartupView::<StartNode, E>::fresh(procedure), replies).len() as int,
    );
}

/// Whatever the driver replies, an instant seal node is started without reusing what is used up.
pub proof fn law_instant_seal_reuses_nothing<E>(
    procedure: StartInstantSealNode,
    replies: Seq<Reply<E>>,
)
    ensures
        nothing_reused(
            attempted(StartupView::<StartInstantSealNode, E>::fresh(procedure), replies),
        ),
{
    let end = run(StartupView::<StartInstantSealNode, E>::fresh(procedure), replies);
    law_run_follows_plan::<StartInstantSealNode, E>(procedure, replies);
    law_instant_seal_in_order(procedure, end.answers);
    lemma_order_forbids_reuse(
        end.plan(),
        attempted(StartupView::<StartInstantSealNode, E>::fresh(procedure), replies).len() as int,
    );
}

} // verus!
