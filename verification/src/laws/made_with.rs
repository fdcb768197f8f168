//! What every action of a start-up is made with, in any run and under any configuration.
//!
//! Each law speaks of the `k`th action that a driver attempted, whatever it replied. What an
//! action takes is told by the configuration, by the arguments of the start-up, or by what the
//! driver answered.
use crate::action::{Action, Reply, TaskName};
use crate::config::Role;
use crate::consensus::ConsensusBuilder;
use crate::executor::{NativeExecutor, Runtime, RuntimeApi, TemplateRuntimeExecutor};
use crate::instant_seal::StartInstantSealNode;
use crate::laws::runs::{attempted, law_run_follows_plan, run};
use crate::parachain::StartNode;
use crate::partial::NewPartial;
use crate::startup::{Procedure, StartupView};
use vstd::prelude::*;

verus! {

/// What an attempted action of [`NewPartial`] stands on.
proof fn lemma_partial_attempted<E>(procedure: NewPartial, replies: Seq<Reply<E>>, k: int)
    requires
        0 <= k < attempted(StartupView::<NewPartial, E>::fresh(procedure), replies).len(),
    ensures
        ({
            let start = StartupView::<NewPartial, E>::fresh(procedure);
            let end = run(start, replies);
            &&& k < crate::partial::partial_len(procedure.config)
            &&& attempted(start, replies)[k] == crate::partial::partial_plan(
                procedure.runtime,
                procedure.config,
                end.answers,
            )[k]
            &&& end.answers.hold_first(
                crate::partial::partial_plan(procedure.runtime, procedure.config, end.answers),
                k,
            )
        }),
{
    law_run_follows_plan::<NewPartial, E>(procedure, replies);
}

/// What an attempted action of [`StartInstantSealNode`] stands on.
proof fn lemma_instant_seal_attempted<E>(
    procedure: StartInstantSealNode,
    replies: Seq<Reply<E>>,
    k: int,
)
    requires
        0 <= k < attempted(StartupView::<StartInstantSealNode, E>::fresh(procedure), replies).len(),
    ensures
        ({
            let start = StartupView::<StartInstantSealNode, E>::fresh(procedure);
            let answers = run(start, replies).answers;
            let action = attempted(start, replies)[k];
            let front = crate::partial::partial_len(procedure.config);
            let late = crate::instant_seal::late_plan(procedure.config, answers);
            &&& action == procedure.plan(answers)[k]
            &&& k < procedure.plan(answers).len()
            &&& answers.hold_first(procedure.plan(answers), k)
            &&& k < front ==> action == crate::partial::partial_plan(
                Runtime::of_template(),
                procedure.config,
                answers,
            )[k]
            &&& k >= front ==> action == late[k - front] && k - front < late.len()
        }),
{
    law_run_follows_plan::<StartInstantSealNode, E>(procedure, replies);
    let answers = run(
        StartupView::<StartInstantSealNode, E>::fresh(procedure),
        replies,
    ).answers;
    let partial = crate::partial::partial_plan(Runtime::of_template(), procedure.config, answers);
    assert(partial.len() == crate::partial::partial_len(procedure.config));
}

/// What has been brought when an action of [`StartInstantSealNode`] is attempted.
proof fn lemma_instant_seal_brought<E>(
    procedure: StartInstantSealNode,
    replies: Seq<Reply<E>>,
    k: int,
)
    requires
        0 <= k < attempted(StartupView::<StartInstantSealNode, E>::fresh(procedure), replies).len(),
    ensures
        ({
            let start = StartupView::<StartInstantSealNode, E>::fresh(procedure);
            let answers = run(start, replies).answers;
            let front = crate::partial::partial_len(procedure.config);
            &&& answers.hold_first(
                crate::partial::partial_plan(Runtime::of_template(), procedure.config, answers),
                if k < front {
                    k
                } else {
                    front
                },
            )
            &&& k > front ==> answers.network is Some
            &&& attempted(start, replies)[k] is NewInstantSeal ==> answers.proposer_factory is Some
            &&& attempted(start, replies)[k] is SpawnInstantSeal ==> answers.seal_task is Some
        }),
{
    lemma_instant_seal_attempted::<E>(procedure, replies, k);
    let answers = run(
        StartupView::<StartInstantSealNode, E>::fresh(procedure),
        replies,
    ).answers;
    procedure.lemma_holds(answers, k);
}

/// What an attempted action of [`StartNode`] stands on.
proof fn lemma_node_attempted<E>(procedure: StartNode, replies: Seq<Reply<E>>, k: int)
    requires
        0 <= k < attempted(StartupView::<StartNode, E>::fresh(procedure), replies).len(),
    ensures
        ({
            let start = StartupView::<StartNode, E>::fresh(procedure);
            let answers = run(start, replies).answers;
            let action = attempted(start, replies)[k];
            let config = answers.configuration->0;
            let front = 1 + crate::partial::partial_len(config);
            let node = crate::parachain::node_plan(
                procedure.polkadot_config,
                procedure.id,
                config,
                answers,
            );
            let role = crate::parachain::role_plan(
                procedure.id,
                procedure.build_consensus,
                config,
                answers,
            );
            &&& action == procedure.plan(answers)[k]
            &&& k < procedure.plan(answers).len()
            &&& answers.hold_first(procedure.plan(answers), k)
            &&& k == 0 ==> action == (Action::PrepareNodeConfig {
                config: procedure.parachain_config.id,
            })
            &&& 1 <= k < front ==> action == crate::partial::partial_plan(
                procedure.runtime,
                config,
                answers,
            )[k - 1]
            &&& front <= k < front + 5 ==> action == node[k - front]
            &&& front + 5 <= k < front + 5 + role.len() ==> action == role[k - front - 5]
            &&& k >= front + 5 + role.len() ==> action == (Action::StartNetwork {
                network_starter: answers.network->0.network_starter,
            })
        }),
{
    law_run_follows_plan::<StartNode, E>(procedure, replies);
    let answers = run(StartupView::<StartNode, E>::fresh(procedure), replies).answers;
    let config = answers.configuration->0;
    let partial = crate::partial::partial_plan(procedure.runtime, config, answers);
    assert(partial.len() == crate::partial::partial_len(config));
}

/// What has been brought when an action of [`StartNode`] is attempted.
proof fn lemma_node_brought<E>(procedure: StartNode, replies: Seq<Reply<E>>, k: int)
    requires
        0 <= k < attempted(StartupView::<StartNode, E>::fresh(procedure), replies).len(),
    ensures
        ({
            let start = StartupView::<StartNode, E>::fresh(procedure);
            let answers = run(start, replies).answers;
            let action = attempted(start, replies)[k];
            let config = answers.configuration->0;
            let front = 1 + crate::partial::partial_len(config);
            &&& k >= 1 ==> answers.configuration is Some
            &&& answers.hold_first(
                crate::partial::partial_plan(procedure.runtime, config, answers),
                if k < front {
                    k - 1
                } else {
                    front - 1
                },
            )
            &&& k >= front + 1 ==> answers.relay_chain_node is Some
            &&& k >= front + 2 ==> answers.announce_validator is Some
            &&& k >= front + 3 ==> answers.shared_import_queue is Some
            &&& k >= front + 4 ==> answers.network is Some
            &&& action is BuildNimbusConsensus ==> answers.proposer_factory is Some
            &&& action is StartCollator ==> answers.consensus is Some
        }),
{
    lemma_node_attempted::<E>(procedure, replies, k);
    let answers = run(StartupView::<StartNode, E>::fresh(procedure), replies).answers;
    procedure.lemma_holds(answers, k);
}

/// Among the parts that every node is built on, telemetry is set up only where the list of
/// endpoints is there and not empty. The worker's channel holds sixteen messages, telemetry goes to
/// that list, and the one worker runs as a task that is neither essential nor blocking.
pub proof fn law_partial_reports_to_its_endpoints<E>(
    procedure: NewPartial,
    replies: Seq<Reply<E>>,
    k: int,
)
    requires
        0 <= k < attempted(StartupView::<NewPartial, E>::fresh(procedure), replies).len(),
    ensures
        ({
            let start = StartupView::<NewPartial, E>::fresh(procedure);
            let answers = run(start, replies).answers;
            let config = procedure.config;
            let reporting = config.telemetry_endpoints matches Some(list) && !list.is_empty;
            match attempted(start, replies)[k] {
                Action::NewTelemetryWorker { buffer_size } => reporting && buffer_size == 16,
                Action::NewTelemetry { worker, endpoints } => {
                    &&& reporting
                    &&& answers.telemetry_worker == Some(worker)
                    &&& endpoints == config.telemetry_endpoints->0.id
                },
                Action::NewTelemetryWorkerHandle { worker } => {
                    &&& reporting
                    &&& answers.telemetry_worker == Some(worker)
                },
                Action::SpawnTelemetryWorker { spawn_handle, name, blocking, worker } => {
                    &&& reporting
                    &&& answers.full_parts is Some
                    &&& spawn_handle.task_manager == answers.full_parts->0.task_manager
                    &&& !spawn_handle.essential
                    &&& name == TaskName::Telemetry
                    &&& !blocking
                    &&& answers.telemetry_worker == Some(worker)
                },
                _ => true,
            }
        }),
{
    lemma_partial_attempted::<E>(procedure, replies, k);
    let answers = run(StartupView::<NewPartial, E>::fresh(procedure), replies).answers;
    crate::partial::lemma_partial_holds(procedure.runtime, procedure.config, answers, k);
}

/// Among the parts that every node is built on, the client is made by the configuration: its
/// executor is set as the configuration sets it, it is made for the right runtime, and it reports
/// to telemetry exactly where there is an endpoint.
pub proof fn law_partial_client_is_made_as_configured<E>(
    procedure: NewPartial,
    replies: Seq<Reply<E>>,
    k: int,
)
    requires
        0 <= k < attempted(StartupView::<NewPartial, E>::fresh(procedure), replies).len(),
    ensures
        ({
            let start = StartupView::<NewPartial, E>::fresh(procedure);
            let answers = run(start, replies).answers;
            let config = procedure.config;
            let reporting = config.telemetry_endpoints matches Some(list) && !list.is_empty;
            match attempted(start, replies)[k] {
                Action::NewFullParts { config: taken, telemetry, runtime_api, executor } => {
                    &&& taken == config.id
                    &&& telemetry is Some <==> reporting
                    &&& telemetry is Some ==> telemetry == answers.telemetry
                    &&& runtime_api == procedure.runtime.api
                    &&& executor.native == procedure.runtime.executor
                    &&& executor.wasm_method == config.wasm_method
                    &&& executor.default_heap_pages == config.default_heap_pages
                    &&& executor.max_runtime_instances == config.max_runtime_instances
                },
                _ => true,
            }
        }),
{
    lemma_partial_attempted::<E>(procedure, replies, k);
    let answers = run(StartupView::<NewPartial, E>::fresh(procedure), replies).answers;
    crate::partial::lemma_partial_holds(procedure.runtime, procedure.config, answers, k);
}

/// Among the parts that every node is built on, the fork choice rule follows the client's backend.
/// The transaction pool is that of a validator exactly where the role is that of an authority,
/// whatever else is configured. Pool and import queue work on the one client.
pub proof fn law_partial_pool_and_queue_suit_the_role<E>(
    procedure: NewPartial,
    replies: Seq<Reply<E>>,
    k: int,
)
    requires
        0 <= k < attempted(StartupView::<NewPartial, E>::fresh(procedure), replies).len(),
    ensures
        ({
            let start = StartupView::<NewPartial, E>::fresh(procedure);
            let answers = run(start, replies).answers;
            let config = procedure.config;
            match attempted(start, replies)[k] {
                Action::NewLongestChain { backend } => {
                    &&& answers.full_parts is Some
                    &&& backend == answers.full_parts->0.backend
                },
                Action::NewTransactionPool(p) => {
                    &&& answers.full_parts is Some
                    &&& p.options == config.id
                    &&& p.is_validator <==> config.role == Role::Authority
                    &&& p.prometheus == config.prometheus_registry
                    &&& p.spawner.task_manager == answers.full_parts->0.task_manager
                    &&& p.spawner.essential
                    &&& p.client == answers.full_parts->0.client
                },
                Action::NewImportQueue(p) => {
                    &&& answers.full_parts is Some
                    &&& p.client == answers.full_parts->0.client
                    &&& p.block_import == answers.full_parts->0.client
                    &&& p.spawner.task_manager == answers.full_parts->0.task_manager
                    &&& p.spawner.essential
                    &&& p.registry == config.prometheus_registry
                },
                _ => true,
            }
        }),
{
    lemma_partial_attempted::<E>(procedure, replies, k);
    let answers = run(StartupView::<NewPartial, E>::fresh(procedure), replies).answers;
    crate::partial::lemma_partial_holds(procedure.runtime, procedure.config, answers, k);
}

/// In a parachain node, telemetry is set up only where the list of endpoints is there and not
/// empty. The worker's channel holds sixteen messages, telemetry goes to that list, and the one
/// worker runs as a task that is neither essential nor blocking.
pub proof fn law_node_reports_to_its_endpoints<E>(
    procedure: StartNode,
    replies: Seq<Reply<E>>,
    k: int,
)
    requires
        0 <= k < attempted(StartupView::<StartNode, E>::fresh(procedure), replies).len(),
    ensures
        ({
            let start = StartupView::<StartNode, E>::fresh(procedure);
            let answers = run(start, replies).answers;
            let config = answers.configuration->0;
            let reporting = config.telemetry_endpoints matches Some(list) && !list.is_empty;
            &&& attempted(start, replies)[k] is PrepareNodeConfig || answers.configuration is Some
            &&& match attempted(start, replies)[k] {
                Action::NewTelemetryWorker { buffer_size } => reporting && buffer_size == 16,
                Action::NewTelemetry { worker, endpoints } => {
                    &&& reporting
                    &&& answers.telemetry_worker == Some(worker)
                    &&& endpoints == config.telemetry_endpoints->0.id
                },
                Action::NewTelemetryWorkerHandle { worker } => {
                    &&& reporting
                    &&& answers.telemetry_worker == Some(worker)
                },
                Action::SpawnTelemetryWorker { spawn_handle, name, blocking, worker } => {
                    &&& reporting
                    &&& answers.full_parts is Some
                    &&& spawn_handle.task_manager == answers.full_parts->0.task_manager
                    &&& !spawn_handle.essential
                    &&& name == TaskName::Telemetry
                    &&& !blocking
                    &&& answers.telemetry_worker == Some(worker)
                },
                _ => true,
            }
        }),
{
    lemma_node_attempted::<E>(procedure, replies, k);
    lemma_node_brought::<E>(procedure, replies, k);
    let answers = run(StartupView::<StartNode, E>::fresh(procedure), replies).answers;
    let config = answers.configuration->0;
    let front = 1 + crate::partial::partial_len(config);
    if k >= 1 {
        crate::partial::lemma_partial_holds(
            procedure.runtime,
            config,
            answers,
            if k < front {
                k - 1
            } else {
                front - 1
            },
        );
    }
}

/// In a parachain node, the client is made by the configuration: its executor is set as the
/// configuration sets it, it is made for the right runtime, and it reports to telemetry exactly
/// where there is an endpoint.
pub proof fn law_node_client_is_made_as_configured<E>(
    procedure: StartNode,
    replies: Seq<Reply<E>>,
    k: int,
)
    requires
        0 <= k < attempted(StartupView::<StartNode, E>::fresh(procedure), replies).len(),
    ensures
        ({
            let start = StartupView::<StartNode, E>::fresh(procedure);
            let answers = run(start, replies).answers;
            let config = answers.configuration->0;
            let reporting = config.telemetry_endpoints matches Some(list) && !list.is_empty;
            &&& attempted(start, replies)[k] is PrepareNodeConfig || answers.configuration is Some
            &&& match attempted(start, replies)[k] {
                Action::NewFullParts { config: taken, telemetry, runtime_api, executor } => {
                    &&& taken == config.id
                    &&& telemetry is Some <==> reporting
                    &&& telemetry is Some ==> telemetry == answers.telemetry
                    &&& runtime_api == procedure.runtime.api
                    &&& executor.native == procedure.runtime.executor
                    &&& executor.wasm_method == config.wasm_method
                    &&& executor.default_heap_pages == config.default_heap_pages
                    &&& executor.max_runtime_instances == config.max_runtime_instances
                },
                _ => true,
            }
        }),
{
    lemma_node_attempted::<E>(procedure, replies, k);
    lemma_node_brought::<E>(procedure, replies, k);
    let answers = run(StartupView::<StartNode, E>::fresh(procedure), replies).answers;
    let config = answers.configuration->0;
    let front = 1 + crate::partial::partial_len(config);
    if k >= 1 {
        crate::partial::lemma_partial_holds(
            procedure.runtime,
            config,
            answers,
            if k < front {
                k - 1
            } else {
                front - 1
            },
        );
    }
}

/// In a parachain node, the fork choice rule follows the client's backend. The transaction pool is
/// that of a validator exactly where the role is that of an authority, whatever else is configured.
/// Pool and import queue work on the one client.
pub proof fn law_node_pool_and_queue_suit_the_role<E>(
    procedure: StartNode,
    replies: Seq<Reply<E>>,
    k: int,
)
    requires
        0 <= k < attempted(StartupView::<StartNode, E>::fresh(procedure), replies).len(),
    ensures
        ({
            let start = StartupView::<StartNode, E>::fresh(procedure);
            let answers = run(start, replies).answers;
            let config = answers.configuration->0;
            &&& attempted(start, replies)[k] is PrepareNodeConfig || answers.configuration is Some
            &&& match attempted(start, replies)[k] {
                Action::NewLongestChain { backend } => {
                    &&& answers.full_parts is Some
                    &&& backend == answers.full_parts->0.backend
                },
                Action::NewTransactionPool(p) => {
                    &&& answers.full_parts is Some
                    &&& p.options == config.id
                    &&& p.is_validator <==> config.role == Role::Authority
                    &&& p.prometheus == config.prometheus_registry
                    &&& p.spawner.task_manager == answers.full_parts->0.task_manager
                    &&& p.spawner.essential
                    &&& p.client == answers.full_parts->0.client
                },
                Action::NewImportQueue(p) => {
                    &&& answers.full_parts is Some
                    &&& p.client == answers.full_parts->0.client
                    &&& p.block_import == answers.full_parts->0.client
                    &&& p.spawner.task_manager == answers.full_parts->0.task_manager
                    &&& p.spawner.essential
                    &&& p.registry == config.prometheus_registry
                },
                _ => true,
            }
        }),
{
    lemma_node_attempted::<E>(procedure, replies, k);
    lemma_node_brought::<E>(procedure, replies, k);
    let answers = run(StartupView::<StartNode, E>::fresh(procedure), replies).answers;
    let config = answers.configuration->0;
    let front = 1 + crate::partial::partial_len(config);
    if k >= 1 {
        crate::partial::lemma_partial_holds(
            procedure.runtime,
            config,
            answers,
            if k < front {
                k - 1
            } else {
                front - 1
            },
        );
    }
}

/// In an instant seal node, telemetry is set up only where the list of endpoints is there and not
/// empty. The worker's channel holds sixteen messages, telemetry goes to that list, and the one
/// worker runs as a task that is neither essential nor blocking.
pub proof fn law_instant_seal_reports_to_its_endpoints<E>(
    procedure: StartInstantSealNode,
    replies: Seq<Reply<E>>,
    k: int,
)
    requires
        0 <= k < attempted(StartupView::<StartInstantSealNode, E>::fresh(procedure), replies).len(),
    ensures
        ({
            let start = StartupView::<StartInstantSealNode, E>::fresh(procedure);
            let answers = run(start, replies).answers;
            let config = procedure.config;
            let reporting = config.telemetry_endpoints matches Some(list) && !list.is_empty;
            match attempted(start, replies)[k] {
                Action::NewTelemetryWorker { buffer_size } => reporting && buffer_size == 16,
                Action::NewTelemetry { worker, endpoints } => {
                    &&& reporting
                    &&& answers.telemetry_worker == Some(worker)
                    &&& endpoints == config.telemetry_endpoints->0.id
                },
                Action::NewTelemetryWorkerHandle { worker } => {
                    &&& reporting
                    &&& answers.telemetry_worker == Some(worker)
                },
                Action::SpawnTelemetryWorker { spawn_handle, name, blocking, worker } => {
                    &&& reporting
                    &&& answers.full_parts is Some
                    &&& spawn_handle.task_manager == answers.full_parts->0.task_manager
                    &&& !spawn_handle.essential
                    &&& name == TaskName::Telemetry
                    &&& !blocking
                    &&& answers.telemetry_worker == Some(worker)
                },
                _ => true,
            }
        }),
{
    lemma_instant_seal_attempted::<E>(procedure, replies, k);
    lemma_instant_seal_brought::<E>(procedure, replies, k);
    let answers = run(
        StartupView::<StartInstantSealNode, E>::fresh(procedure),
        replies,
    ).answers;
    let front = crate::partial::partial_len(procedure.config);
    crate::partial::lemma_partial_holds(
        Runtime::of_template(),
        procedure.config,
        answers,
        if k < front {
            k
        } else {
            front
        },
    );
}

/// In an instant seal node, the client is made by the configuration: its executor is set as the
/// configuration sets it, it is made for the right runtime, and it reports to telemetry exactly
/// where there is an endpoint.
pub proof fn law_instant_seal_client_is_made_as_configured<E>(
    procedure: StartInstantSealNode,
    replies: Seq<Reply<E>>,
    k: int,
)
    requires
        0 <= k < attempted(StartupView::<StartInstantSealNode, E>::fresh(procedure), replies).len(),
    ensures
        ({
            let start = StartupView::<StartInstantSealNode, E>::fresh(procedure);
            let answers = run(start, replies).answers;
            let config = procedure.config;
            let reporting = config.telemetry_endpoints matches Some(list) && !list.is_empty;
            match attempted(start, replies)[k] {
                Action::NewFullParts { config: taken, telemetry, runtime_api, executor } => {
                    &&& taken == config.id
                    &&& telemetry is Some <==> reporting
                    &&& telemetry is Some ==> telemetry == answers.telemetry
                    &&& runtime_api == RuntimeApi::Template
                    &&& executor.native == NativeExecutor::Template(TemplateRuntimeExecutor)
                    &&& executor.wasm_method == config.wasm_method
                    &&& executor.default_heap_pages == config.default_heap_pages
                    &&& executor.max_runtime_instances == config.max_runtime_instances
                },
                _ => true,
            }
        }),
{
    lemma_instant_seal_attempted::<E>(procedure, replies, k);
    lemma_instant_seal_brought::<E>(procedure, replies, k);
    let answers = run(
        StartupView::<StartInstantSealNode, E>::fresh(procedure),
        replies,
    ).answers;
    let front = crate::partial::partial_len(procedure.config);
    crate::partial::lemma_partial_holds(
        Runtime::of_template(),
        procedure.config,
        answers,
        if k < front {
            k
        } else {
            front
        },
    );
}

/// In an instant seal node, the fork choice rule follows the client's backend. The transaction pool
/// is that of a validator exactly where the role is that of an authority, whatever else is
/// configured. Pool and import queue work on the one client.
pub proof fn law_instant_seal_pool_and_queue_suit_the_role<E>(
    procedure: StartInstantSealNode,
    replies: Seq<Reply<E>>,
    k: int,
)
    requires
        0 <= k < attempted(StartupView::<StartInstantSealNode, E>::fresh(procedure), replies).len(),
    ensures
        ({
            let start = StartupView::<StartInstantSealNode, E>::fresh(procedure);
            let answers = run(start, replies).answers;
            let config = procedure.config;
            match attempted(start, replies)[k] {
                Action::NewLongestChain { backend } => {
                    &&& answers.full_parts is Some
                    &&& backend == answers.full_parts->0.backend
                },
                Action::NewTransactionPool(p) => {
                    &&& answers.full_parts is Some
                    &&& p.options == config.id
                    &&& p.is_validator <==> config.role == Role::Authority
                    &&& p.prometheus == config.prometheus_registry
                    &&& p.spawner.task_manager == answers.full_parts->0.task_manager
                    &&& p.spawner.essential
                    &&& p.client == answers.full_parts->0.client
                },
                Action::NewImportQueue(p) => {
                    &&& answers.full_parts is Some
                    &&& p.client == answers.full_parts->0.client
                    &&& p.block_import == answers.full_parts->0.client
                    &&& p.spawner.task_manager == answers.full_parts->0.task_manager
                    &&& p.spawner.essential
                    &&& p.registry == config.prometheus_registry
                },
                _ => true,
            }
        }),
{
    lemma_instant_seal_attempted::<E>(procedure, replies, k);
    lemma_instant_seal_brought::<E>(procedure, replies, k);
    let answers = run(
        StartupView::<StartInstantSealNode, E>::fresh(procedure),
        replies,
    ).answers;
    let front = crate::partial::partial_len(procedure.config);
    crate::partial::lemma_partial_holds(
        Runtime::of_template(),
        procedure.config,
        answers,
        if k < front {
            k
        } else {
            front
        },
    );
}

/// A parachain node has its own configuration prepared, and has the relay chain node built by the
/// other one. The relay chain node reports through the telemetry worker exactly where there is an
/// endpoint.
pub proof fn law_node_prepares_its_own_configuration<E>(
    procedure: StartNode,
    replies: Seq<Reply<E>>,
    k: int,
)
    requires
        0 <= k < attempted(StartupView::<StartNode, E>::fresh(procedure), replies).len(),
    ensures
        ({
            let start = StartupView::<StartNode, E>::fresh(procedure);
            let answers = run(start, replies).answers;
            let config = answers.configuration->0;
            let reporting = config.telemetry_endpoints matches Some(list) && !list.is_empty;
            &&& attempted(start, replies)[k] is PrepareNodeConfig || answers.configuration is Some
            &&& match attempted(start, replies)[k] {
                Action::PrepareNodeConfig { config: taken } => {
                    taken == procedure.parachain_config.id
                },
                Action::BuildRelayChainNode { config: taken, telemetry_worker_handle } => {
                    &&& taken == procedure.polkadot_config
                    &&& telemetry_worker_handle is Some <==> reporting
                    &&& telemetry_worker_handle is Some ==> telemetry_worker_handle
                        == answers.telemetry_worker_handle
                },
                _ => true,
            }
        }),
{
    lemma_node_attempted::<E>(procedure, replies, k);
    lemma_node_brought::<E>(procedure, replies, k);
    let answers = run(StartupView::<StartNode, E>::fresh(procedure), replies).answers;
    let config = answers.configuration->0;
    let front = 1 + crate::partial::partial_len(config);
    if k >= 1 {
        crate::partial::lemma_partial_holds(
            procedure.runtime,
            config,
            answers,
            if k < front {
                k - 1
            } else {
                front - 1
            },
        );
    }
}

/// A parachain node validates block announcements against its relay chain node, and shares its
/// import queue: whatever is configured, the validator and the shared queue that were made go into
/// the network.
pub proof fn law_node_network_checks_announcements<E>(
    procedure: StartNode,
    replies: Seq<Reply<E>>,
    k: int,
)
    requires
        0 <= k < attempted(StartupView::<StartNode, E>::fresh(procedure), replies).len(),
    ensures
        ({
            let start = StartupView::<StartNode, E>::fresh(procedure);
            let answers = run(start, replies).answers;
            let config = answers.configuration->0;
            &&& attempted(start, replies)[k] is PrepareNodeConfig || answers.configuration is Some
            &&& match attempted(start, replies)[k] {
                Action::BuildAnnounceValidator(p) => {
                    &&& answers.relay_chain_node == Some(p.relay_chain_client)
                    &&& answers.relay_chain_node == Some(p.relay_chain_sync_oracle)
                    &&& answers.relay_chain_node == Some(p.relay_chain_backend)
                    &&& p.para_id == procedure.id
                },
                Action::ShareImportQueue { import_queue } => {
                    answers.import_queue == Some(import_queue)
                },
                Action::BuildNetwork(p) => {
                    &&& answers.full_parts is Some
                    &&& p.config == config.id
                    &&& p.client == answers.full_parts->0.client
                    &&& answers.transaction_pool == Some(p.transaction_pool)
                    &&& p.spawn_handle.task_manager == answers.full_parts->0.task_manager
                    &&& !p.spawn_handle.essential
                    &&& !p.on_demand
                    &&& !p.warp_sync
                    &&& answers.announce_validator is Some
                    &&& p.block_announce_validator == answers.announce_validator
                    &&& p.import_queue is Shared
                    &&& answers.shared_import_queue == Some(p.import_queue->Shared_0)
                },
                _ => true,
            }
        }),
{
    lemma_node_attempted::<E>(procedure, replies, k);
    lemma_node_brought::<E>(procedure, replies, k);
    let answers = run(StartupView::<StartNode, E>::fresh(procedure), replies).answers;
    let config = answers.configuration->0;
    let front = 1 + crate::partial::partial_len(config);
    if k >= 1 {
        crate::partial::lemma_partial_holds(
            procedure.runtime,
            config,
            answers,
            if k < front {
                k - 1
            } else {
                front - 1
            },
        );
    }
}

/// The tasks of a parachain node run on the parts that were made for it, and so do its RPC
/// extensions.
pub proof fn law_node_tasks_run_on_its_parts<E>(
    procedure: StartNode,
    replies: Seq<Reply<E>>,
    k: int,
)
    requires
        0 <= k < attempted(StartupView::<StartNode, E>::fresh(procedure), replies).len(),
    ensures
        ({
            let start = StartupView::<StartNode, E>::fresh(procedure);
            let answers = run(start, replies).answers;
            let config = answers.configuration->0;
            let reporting = config.telemetry_endpoints matches Some(list) && !list.is_empty;
            &&& attempted(start, replies)[k] is PrepareNodeConfig || answers.configuration is Some
            &&& match attempted(start, replies)[k] {
                Action::SpawnTasks(p) => {
                    &&& answers.full_parts is Some
                    &&& answers.network is Some
                    &&& p.config == config.id
                    &&& p.client == answers.full_parts->0.client
                    &&& p.backend == answers.full_parts->0.backend
                    &&& p.task_manager == answers.full_parts->0.task_manager
                    &&& p.keystore == answers.full_parts->0.keystore_container
                    &&& answers.transaction_pool == Some(p.transaction_pool)
                    &&& p.rpc_extensions_builder.client == answers.full_parts->0.client
                    &&& answers.transaction_pool == Some(p.rpc_extensions_builder.pool)
                    &&& p.network == answers.network->0.network
                    &&& p.system_rpc_tx == answers.network->0.system_rpc_tx
                    &&& p.telemetry is Some <==> reporting
                    &&& p.telemetry is Some ==> p.telemetry == answers.telemetry
                    &&& !p.on_demand
                    &&& !p.remote_blockchain
                },
                _ => true,
            }
        }),
{
    lemma_node_attempted::<E>(procedure, replies, k);
    lemma_node_brought::<E>(procedure, replies, k);
    let answers = run(StartupView::<StartNode, E>::fresh(procedure), replies).answers;
    let config = answers.configuration->0;
    let front = 1 + crate::partial::partial_len(config);
    if k >= 1 {
        crate::partial::lemma_partial_holds(
            procedure.runtime,
            config,
            answers,
            if k < front {
                k - 1
            } else {
                front - 1
            },
        );
    }
}

/// Only an authority has a consensus. Its proposers record a proof, its blocks are imported through
/// its own client, and it skips the question whether it is eligible exactly where authoring is
/// forced.
pub proof fn law_node_consensus_suits_the_configuration<E>(
    procedure: StartNode,
    replies: Seq<Reply<E>>,
    k: int,
)
    requires
        0 <= k < attempted(StartupView::<StartNode, E>::fresh(procedure), replies).len(),
    ensures
        ({
            let start = StartupView::<StartNode, E>::fresh(procedure);
            let answers = run(start, replies).answers;
            let config = answers.configuration->0;
            let reporting = config.telemetry_endpoints matches Some(list) && !list.is_empty;
            &&& attempted(start, replies)[k] is PrepareNodeConfig || answers.configuration is Some
            &&& match attempted(start, replies)[k] {
                Action::NewProposerFactory(p) => {
                    &&& config.role == Role::Authority
                    &&& answers.full_parts is Some
                    &&& p.proof_recording
                    &&& procedure.build_consensus == ConsensusBuilder::Nimbus
                    &&& p.spawn_handle.task_manager == answers.full_parts->0.task_manager
                    &&& !p.spawn_handle.essential
                    &&& p.client == answers.full_parts->0.client
                    &&& answers.transaction_pool == Some(p.transaction_pool)
                    &&& p.prometheus == config.prometheus_registry
                    &&& p.telemetry is Some <==> reporting
                    &&& p.telemetry is Some ==> p.telemetry == answers.telemetry
                },
                Action::BuildNimbusConsensus(p) => {
                    &&& config.role == Role::Authority
                    &&& procedure.build_consensus == ConsensusBuilder::Nimbus
                    &&& answers.full_parts is Some
                    &&& p.para_id == procedure.id
                    &&& answers.proposer_factory == Some(p.proposer_factory)
                    &&& p.block_import == answers.full_parts->0.client
                    &&& answers.relay_chain_node == Some(p.relay_chain_client)
                    &&& answers.relay_chain_node == Some(p.relay_chain_backend)
                    &&& p.parachain_client == answers.full_parts->0.client
                    &&& p.keystore == answers.full_parts->0.keystore_container
                    &&& p.skip_prediction <==> config.force_authoring
                    &&& answers.relay_chain_node == Some(
                        p.create_inherent_data_providers.relay_chain_client,
                    )
                    &&& answers.relay_chain_node == Some(
                        p.create_inherent_data_providers.relay_chain_backend,
                    )
                    &&& p.create_inherent_data_providers.para_id == procedure.id
                },
                Action::BuildConsensus(p) => {
                    &&& config.role == Role::Authority
                    &&& procedure.build_consensus == ConsensusBuilder::Driver
                    &&& answers.full_parts is Some
                    &&& answers.network is Some
                    &&& p.client == answers.full_parts->0.client
                    &&& p.prometheus_registry == config.prometheus_registry
                    &&& p.telemetry is Some <==> reporting
                    &&& p.telemetry is Some ==> p.telemetry == answers.telemetry
                    &&& p.task_manager == answers.full_parts->0.task_manager
                    &&& answers.relay_chain_node == Some(p.relay_chain_node)
                    &&& answers.transaction_pool == Some(p.transaction_pool)
                    &&& p.sync_oracle == answers.network->0.network
                    &&& p.keystore == answers.full_parts->0.keystore_container
                    &&& p.force_authoring <==> config.force_authoring
                },
                _ => true,
            }
        }),
{
    lemma_node_attempted::<E>(procedure, replies, k);
    lemma_node_brought::<E>(procedure, replies, k);
    let answers = run(StartupView::<StartNode, E>::fresh(procedure), replies).answers;
    let config = answers.configuration->0;
    let front = 1 + crate::partial::partial_len(config);
    if k >= 1 {
        crate::partial::lemma_partial_holds(
            procedure.runtime,
            config,
            answers,
            if k < front {
                k - 1
            } else {
                front - 1
            },
        );
    }
}

/// A parachain node collates where it is an authority, with the consensus that was built and the
/// queue that is shared; any other node follows the chain. Either announces blocks on its own
/// network, which is the one that is started.
pub proof fn law_node_plays_its_role<E>(
    procedure: StartNode,
    replies: Seq<Reply<E>>,
    k: int,
)
    requires
        0 <= k < attempted(StartupView::<StartNode, E>::fresh(procedure), replies).len(),
    ensures
        ({
            let start = StartupView::<StartNode, E>::fresh(procedure);
            let answers = run(start, replies).answers;
            let config = answers.configuration->0;
            &&& attempted(start, replies)[k] is PrepareNodeConfig || answers.configuration is Some
            &&& match attempted(start, replies)[k] {
                Action::StartCollator(p) => {
                    &&& config.role == Role::Authority
                    &&& answers.full_parts is Some
                    &&& answers.network is Some
                    &&& p.para_id == procedure.id
                    &&& p.block_status == answers.full_parts->0.client
                    &&& p.announce_block == answers.network->0.network
                    &&& p.client == answers.full_parts->0.client
                    &&& p.task_manager == answers.full_parts->0.task_manager
                    &&& answers.relay_chain_node == Some(p.relay_chain_full_node)
                    &&& p.spawner.task_manager == answers.full_parts->0.task_manager
                    &&& !p.spawner.essential
                    &&& answers.consensus == Some(p.parachain_consensus)
                    &&& answers.shared_import_queue == Some(p.import_queue)
                },
                Action::StartFullNode(p) => {
                    &&& config.role != Role::Authority
                    &&& answers.full_parts is Some
                    &&& answers.network is Some
                    &&& p.client == answers.full_parts->0.client
                    &&& p.announce_block == answers.network->0.network
                    &&& p.task_manager == answers.full_parts->0.task_manager
                    &&& p.para_id == procedure.id
                    &&& answers.relay_chain_node == Some(p.relay_chain_full_node)
                },
                Action::StartNetwork { network_starter } => {
                    &&& answers.network is Some
                    &&& network_starter == answers.network->0.network_starter
                },
                _ => true,
            }
        }),
{
    lemma_node_attempted::<E>(procedure, replies, k);
    lemma_node_brought::<E>(procedure, replies, k);
    let answers = run(StartupView::<StartNode, E>::fresh(procedure), replies).answers;
    let config = answers.configuration->0;
    let front = 1 + crate::partial::partial_len(config);
    if k >= 1 {
        crate::partial::lemma_partial_holds(
            procedure.runtime,
            config,
            answers,
            if k < front {
                k - 1
            } else {
                front - 1
            },
        );
    }
}

/// The network of an instant seal node takes the import queue for itself and validates
/// announcements in no way of its own. It is the network that off-chain workers use, and the one
/// that is started.
pub proof fn law_instant_seal_network_is_its_own<E>(
    procedure: StartInstantSealNode,
    replies: Seq<Reply<E>>,
    k: int,
)
    requires
        0 <= k < attempted(StartupView::<StartInstantSealNode, E>::fresh(procedure), replies).len(),
    ensures
        ({
            let start = StartupView::<StartInstantSealNode, E>::fresh(procedure);
            let answers = run(start, replies).answers;
            let config = procedure.config;
            match attempted(start, replies)[k] {
                Action::BuildNetwork(p) => {
                    &&& answers.full_parts is Some
                    &&& p.config == config.id
                    &&& p.client == answers.full_parts->0.client
                    &&& answers.transaction_pool == Some(p.transaction_pool)
                    &&& p.spawn_handle.task_manager == answers.full_parts->0.task_manager
                    &&& !p.spawn_handle.essential
                    &&& !p.on_demand
                    &&& !p.warp_sync
                    &&& p.block_announce_validator is None
                    &&& p.import_queue is Own
                    &&& answers.import_queue == Some(p.import_queue->Own_0)
                },
                Action::BuildOffchainWorkers(p) => {
                    &&& config.offchain_worker_enabled
                    &&& answers.full_parts is Some
                    &&& answers.network is Some
                    &&& p.config == config.id
                    &&& p.spawn_handle.task_manager == answers.full_parts->0.task_manager
                    &&& !p.spawn_handle.essential
                    &&& p.client == answers.full_parts->0.client
                    &&& p.network == answers.network->0.network
                },
                Action::StartNetwork { network_starter } => {
                    &&& answers.network is Some
                    &&& network_starter == answers.network->0.network_starter
                },
                _ => true,
            }
        }),
{
    lemma_instant_seal_attempted::<E>(procedure, replies, k);
    lemma_instant_seal_brought::<E>(procedure, replies, k);
    let answers = run(
        StartupView::<StartInstantSealNode, E>::fresh(procedure),
        replies,
    ).answers;
    let front = crate::partial::partial_len(procedure.config);
    crate::partial::lemma_partial_holds(
        Runtime::of_template(),
        procedure.config,
        answers,
        if k < front {
            k
        } else {
            front
        },
    );
}

/// The tasks of an instant seal node run on the parts that were made for it, and so do its RPC
/// extensions.
pub proof fn law_instant_seal_tasks_run_on_its_parts<E>(
    procedure: StartInstantSealNode,
    replies: Seq<Reply<E>>,
    k: int,
)
    requires
        0 <= k < attempted(StartupView::<StartInstantSealNode, E>::fresh(procedure), replies).len(),
    ensures
        ({
            let start = StartupView::<StartInstantSealNode, E>::fresh(procedure);
            let answers = run(start, replies).answers;
            let config = procedure.config;
            let reporting = config.telemetry_endpoints matches Some(list) && !list.is_empty;
            match attempted(start, replies)[k] {
                Action::SpawnTasks(p) => {
                    &&& answers.full_parts is Some
                    &&& answers.network is Some
                    &&& p.config == config.id
                    &&& p.client == answers.full_parts->0.client
                    &&& p.backend == answers.full_parts->0.backend
                    &&& p.task_manager == answers.full_parts->0.task_manager
                    &&& p.keystore == answers.full_parts->0.keystore_container
                    &&& answers.transaction_pool == Some(p.transaction_pool)
                    &&& p.rpc_extensions_builder.client == answers.full_parts->0.client
                    &&& answers.transaction_pool == Some(p.rpc_extensions_builder.pool)
                    &&& p.network == answers.network->0.network
                    &&& p.system_rpc_tx == answers.network->0.system_rpc_tx
                    &&& p.telemetry is Some <==> reporting
                    &&& p.telemetry is Some ==> p.telemetry == answers.telemetry
                    &&& !p.on_demand
                    &&& !p.remote_blockchain
                },
                _ => true,
            }
        }),
{
    lemma_instant_seal_attempted::<E>(procedure, replies, k);
    lemma_instant_seal_brought::<E>(procedure, replies, k);
    let answers = run(
        StartupView::<StartInstantSealNode, E>::fresh(procedure),
        replies,
    ).answers;
    let front = crate::partial::partial_len(procedure.config);
    crate::partial::lemma_partial_holds(
        Runtime::of_template(),
        procedure.config,
        answers,
        if k < front {
            k
        } else {
            front
        },
    );
}

/// Only an authority seals. Its proposers record no proof and its blocks carry no digests of a
/// consensus engine, whatever is configured. The seal task is essential, and runs on a thread for
/// blocking work.
pub proof fn law_instant_seal_seals_without_a_consensus<E>(
    procedure: StartInstantSealNode,
    replies: Seq<Reply<E>>,
    k: int,
)
    requires
        0 <= k < attempted(StartupView::<StartInstantSealNode, E>::fresh(procedure), replies).len(),
    ensures
        ({
            let start = StartupView::<StartInstantSealNode, E>::fresh(procedure);
            let answers = run(start, replies).answers;
            let config = procedure.config;
            let reporting = config.telemetry_endpoints matches Some(list) && !list.is_empty;
            match attempted(start, replies)[k] {
                Action::NewProposerFactory(p) => {
                    &&& config.role == Role::Authority
                    &&& answers.full_parts is Some
                    &&& !p.proof_recording
                    &&& p.spawn_handle.task_manager == answers.full_parts->0.task_manager
                    &&& !p.spawn_handle.essential
                    &&& p.client == answers.full_parts->0.client
                    &&& answers.transaction_pool == Some(p.transaction_pool)
                    &&& p.prometheus == config.prometheus_registry
                    &&& p.telemetry is Some <==> reporting
                    &&& p.telemetry is Some ==> p.telemetry == answers.telemetry
                },
                Action::NewInstantSeal(p) => {
                    &&& config.role == Role::Authority
                    &&& answers.full_parts is Some
                    &&& p.block_import == answers.full_parts->0.client
                    &&& answers.proposer_factory == Some(p.env)
                    &&& p.client == answers.full_parts->0.client
                    &&& answers.transaction_pool == Some(p.pool)
                    &&& answers.select_chain == Some(p.select_chain)
                    &&& !p.consensus_data_provider
                },
                Action::SpawnInstantSeal { spawn_handle, name, blocking, task } => {
                    &&& config.role == Role::Authority
                    &&& answers.full_parts is Some
                    &&& spawn_handle.task_manager == answers.full_parts->0.task_manager
                    &&& spawn_handle.essential
                    &&& name == TaskName::InstantSeal
                    &&& blocking
                    &&& answers.seal_task == Some(task)
                },
                _ => true,
            }
        }),
{
    lemma_instant_seal_attempted::<E>(procedure, replies, k);
    lemma_instant_seal_brought::<E>(procedure, replies, k);
    let answers = run(
        StartupView::<StartInstantSealNode, E>::fresh(procedure),
        replies,
    ).answers;
    let front = crate::partial::partial_len(procedure.config);
    crate::partial::lemma_partial_holds(
        Runtime::of_template(),
        procedure.config,
        answers,
        if k < front {
            k
        } else {
            front
        },
    );
}

} // verus!
