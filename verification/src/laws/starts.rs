//! How start-ups set out, and what they come to when they end well.
use crate::action::{Action, Reply};
use crate::components::ParachainNode;
use crate::config::Role;
use crate::consensus::ConsensusBuilder;
use crate::error::ServiceErrorView;
use crate::instant_seal::StartInstantSealNode;
use crate::laws::runs::{attempted, law_run_follows_plan, law_success_means_whole_plan, run};
use crate::parachain::StartNode;
use crate::partial::NewPartial;
use crate::startup::{Answers, Procedure, StartupView};
use vstd::prelude::*;

verus! {

/// Light clients are turned down, and no other node is: whatever else is configured, any other node
/// sets out with everything before it, and first has its own configuration prepared.
pub proof fn law_only_light_clients_are_turned_down<E>(procedure: StartNode)
    ensures
        ({
            let start = procedure.at_the_start::<E>();
            &&& start.procedure == procedure
            &&& start.done == 0
            &&& procedure.parachain_config.role == Role::Light ==> {
                &&& start.due() is None
                &&& start.outcome() == Some(
                    Err::<ParachainNode, ServiceErrorView<E>>(
                        ServiceErrorView::Other("Light client not supported!"@),
                    ),
                )
            }
            &&& procedure.parachain_config.role != Role::Light ==> {
                &&& start == StartupView::<StartNode, E>::fresh(procedure)
                &&& start.failure is None
                &&& start.outcome() is None
                &&& start.due() == Some(
                    Action::PrepareNodeConfig { config: procedure.parachain_config.id },
                )
            }
        }),
{
}

/// Making the parts that every node is built on takes a client, a fork choice rule, a transaction
/// pool and an import queue, and telemetry exactly where there is an endpoint. Nothing else is
/// done.
pub proof fn law_partial_makes_every_part<E>(procedure: NewPartial, replies: Seq<Reply<E>>)
    requires
        run(StartupView::<NewPartial, E>::fresh(procedure), replies).outcome() matches Some(Ok(_)),
    ensures
        ({
            let start = StartupView::<NewPartial, E>::fresh(procedure);
            let tried = attempted(start, replies);
            let config = procedure.config;
            let reporting = config.telemetry_endpoints matches Some(list) && !list.is_empty;
            &&& exists|i: int| 0 <= i < tried.len() && (#[trigger] tried[i]) is NewFullParts
            &&& exists|i: int| 0 <= i < tried.len() && (#[trigger] tried[i]) is NewLongestChain
            &&& exists|i: int| 0 <= i < tried.len() && (#[trigger] tried[i]) is NewTransactionPool
            &&& exists|i: int| 0 <= i < tried.len() && (#[trigger] tried[i]) is NewImportQueue
            &&& reporting <==> exists|i: int|
                0 <= i < tried.len() && (#[trigger] tried[i]) is NewTelemetryWorker
            &&& reporting <==> exists|i: int|
                0 <= i < tried.len() && (#[trigger] tried[i]) is NewTelemetry
            &&& reporting <==> exists|i: int|
                0 <= i < tried.len() && (#[trigger] tried[i]) is NewTelemetryWorkerHandle
            &&& reporting <==> exists|i: int|
                0 <= i < tried.len() && (#[trigger] tried[i]) is SpawnTelemetryWorker
            &&& forall|i: int|
                0 <= i < tried.len() ==> match #[trigger] tried[i] {
                    Action::PrepareNodeConfig { .. } => false,
                    Action::BuildRelayChainNode { .. } => false,
                    Action::BuildAnnounceValidator(_) => false,
                    Action::ShareImportQueue { .. } => false,
                    Action::BuildNetwork(_) => false,
                    Action::BuildOffchainWorkers(_) => false,
                    Action::SpawnTasks(_) => false,
                    Action::NewProposerFactory(_) => false,
                    Action::BuildConsensus(_) => false,
                    Action::BuildNimbusConsensus(_) => false,
                    Action::StartCollator(_) => false,
                    Action::StartFullNode(_) => false,
                    Action::NewInstantSeal(_) => false,
                    Action::SpawnInstantSeal { .. } => false,
                    Action::StartNetwork { .. } => false,
                    _ => true,
                }
        }),
{
    law_run_follows_plan::<NewPartial, E>(procedure, replies);
    law_success_means_whole_plan::<NewPartial, E>(procedure, replies);
    let answers = run(StartupView::<NewPartial, E>::fresh(procedure), replies).answers;
    lemma_partial_plan_is_whole(procedure, answers);
}

/// A parachain node that has started has had every part made and every step taken: the client with
/// all that belongs to it, a relay chain node, a validator of announcements, a shared queue, a
/// network and its tasks. An authority has had a consensus built and collates, any other node
/// follows the chain. Nothing is sealed, and no off-chain workers are built.
pub proof fn law_node_takes_every_step<E>(procedure: StartNode, replies: Seq<Reply<E>>)
    requires
        run(StartupView::<StartNode, E>::fresh(procedure), replies).outcome() matches Some(Ok(_)),
    ensures
        ({
            let start = StartupView::<StartNode, E>::fresh(procedure);
            let tried = attempted(start, replies);
            let config = run(start, replies).answers.configuration->0;
            let reporting = config.telemetry_endpoints matches Some(list) && !list.is_empty;
            let authority = config.role == Role::Authority;
            let nimbus = procedure.build_consensus == ConsensusBuilder::Nimbus;
            &&& exists|i: int| 0 <= i < tried.len() && (#[trigger] tried[i]) is PrepareNodeConfig
            &&& exists|i: int| 0 <= i < tried.len() && (#[trigger] tried[i]) is NewFullParts
            &&& exists|i: int| 0 <= i < tried.len() && (#[trigger] tried[i]) is NewLongestChain
            &&& exists|i: int| 0 <= i < tried.len() && (#[trigger] tried[i]) is NewTransactionPool
            &&& exists|i: int| 0 <= i < tried.len() && (#[trigger] tried[i]) is NewImportQueue
            &&& reporting <==> exists|i: int|
                0 <= i < tried.len() && (#[trigger] tried[i]) is NewTelemetryWorker
            &&& reporting <==> exists|i: int|
                0 <= i < tried.len() && (#[trigger] tried[i]) is NewTelemetry
            &&& reporting <==> exists|i: int|
                0 <= i < tried.len() && (#[trigger] tried[i]) is NewTelemetryWorkerHandle
            &&& reporting <==> exists|i: int|
                0 <= i < tried.len() && (#[trigger] tried[i]) is SpawnTelemetryWorker
            &&& exists|i: int| 0 <= i < tried.len() && (#[trigger] tried[i]) is BuildRelayChainNode
            &&& exists|i: int|
                0 <= i < tried.len() && (#[trigger] tried[i]) is BuildAnnounceValidator
            &&& exists|i: int| 0 <= i < tried.len() && (#[trigger] tried[i]) is ShareImportQueue
            &&& exists|i: int| 0 <= i < tried.len() && (#[trigger] tried[i]) is BuildNetwork
            &&& exists|i: int| 0 <= i < tried.len() && (#[trigger] tried[i]) is SpawnTasks
            &&& authority && nimbus <==> exists|i: int|
                0 <= i < tried.len() && (#[trigger] tried[i]) is NewProposerFactory
            &&& authority && nimbus <==> exists|i: int|
                0 <= i < tried.len() && (#[trigger] tried[i]) is BuildNimbusConsensus
            &&& authority && !nimbus <==> exists|i: int|
                0 <= i < tried.len() && (#[trigger] tried[i]) is BuildConsensus
            &&& authority <==> exists|i: int|
                0 <= i < tried.len() && (#[trigger] tried[i]) is StartCollator
            &&& !authority <==> exists|i: int|
                0 <= i < tried.len() && (#[trigger] tried[i]) is StartFullNode
            &&& exists|i: int| 0 <= i < tried.len() && (#[trigger] tried[i]) is StartNetwork
            &&& forall|i: int|
                0 <= i < tried.len() ==> match #[trigger] tried[i] {
                    Action::BuildOffchainWorkers(_) => false,
                    Action::NewInstantSeal(_) => false,
                    Action::SpawnInstantSeal { .. } => false,
                    _ => true,
                }
        }),
{
    law_run_follows_plan::<StartNode, E>(procedure, replies);
    law_success_means_whole_plan::<StartNode, E>(procedure, replies);
    let answers = run(StartupView::<StartNode, E>::fresh(procedure), replies).answers;
    let config = answers.configuration->0;
    lemma_node_shape(procedure, answers);
    lemma_node_steps(
        procedure.plan(answers),
        config.telemetry_targets() is Some,
        config.role == Role::Authority,
        procedure.build_consensus == ConsensusBuilder::Nimbus,
    );
}

/// An instant seal node that has started has had every part made and every step taken: the client
/// with all that belongs to it, a network and its tasks, off-chain workers exactly where they are
/// enabled, and a seal task exactly where it is an authority. Nothing of a parachain is built.
pub proof fn law_instant_seal_takes_every_step<E>(
    procedure: StartInstantSealNode,
    replies: Seq<Reply<E>>,
)
    requires
        run(
            StartupView::<StartInstantSealNode, E>::fresh(procedure),
            replies,
        ).outcome() matches Some(Ok(_)),
    ensures
        ({
            let start = StartupView::<StartInstantSealNode, E>::fresh(procedure);
            let tried = attempted(start, replies);
            let config = procedure.config;
            let reporting = config.telemetry_endpoints matches Some(list) && !list.is_empty;
            let authority = config.role == Role::Authority;
            &&& exists|i: int| 0 <= i < tried.len() && (#[trigger] tried[i]) is NewFullParts
            &&& exists|i: int| 0 <= i < tried.len() && (#[trigger] tried[i]) is NewLongestChain
            &&& exists|i: int| 0 <= i < tried.len() && (#[trigger] tried[i]) is NewTransactionPool
            &&& exists|i: int| 0 <= i < tried.len() && (#[trigger] tried[i]) is NewImportQueue
            &&& reporting <==> exists|i: int|
                0 <= i < tried.len() && (#[trigger] tried[i]) is NewTelemetryWorker
            &&& reporting <==> exists|i: int|
                0 <= i < tried.len() && (#[trigger] tried[i]) is NewTelemetry
            &&& reporting <==> exists|i: int|
                0 <= i < tried.len() && (#[trigger] tried[i]) is NewTelemetryWorkerHandle
            &&& reporting <==> exists|i: int|
                0 <= i < tried.len() && (#[trigger] tried[i]) is SpawnTelemetryWorker
            &&& exists|i: int| 0 <= i < tried.len() && (#[trigger] tried[i]) is BuildNetwork
            &&& config.offchain_worker_enabled <==> exists|i: int|
                0 <= i < tried.len() && (#[trigger] tried[i]) is BuildOffchainWorkers
            &&& exists|i: int| 0 <= i < tried.len() && (#[trigger] tried[i]) is SpawnTasks
            &&& authority <==> exists|i: int|
                0 <= i < tried.len() && (#[trigger] tried[i]) is NewProposerFactory
            &&& authority <==> exists|i: int|
                0 <= i < tried.len() && (#[trigger] tried[i]) is NewInstantSeal
            &&& authority <==> exists|i: int|
                0 <= i < tried.len() && (#[trigger] tried[i]) is SpawnInstantSeal
            &&& exists|i: int| 0 <= i < tried.len() && (#[trigger] tried[i]) is StartNetwork
            &&& forall|i: int|
                0 <= i < tried.len() ==> match #[trigger] tried[i] {
                    Action::PrepareNodeConfig { .. } => false,
                    Action::BuildRelayChainNode { .. } => false,
                    Action::BuildAnnounceValidator(_) => false,
                    Action::ShareImportQueue { .. } => false,
                    Action::BuildConsensus(_) => false,
                    Action::BuildNimbusConsensus(_) => false,
                    Action::StartCollator(_) => false,
                    Action::StartFullNode(_) => false,
                    _ => true,
                }
        }),
{
    law_run_follows_plan::<StartInstantSealNode, E>(procedure, replies);
    law_success_means_whole_plan::<StartInstantSealNode, E>(procedure, replies);
    let answers = run(
        StartupView::<StartInstantSealNode, E>::fresh(procedure),
        replies,
    ).answers;
    lemma_instant_seal_shape(procedure, answers);
    lemma_instant_seal_steps(
        procedure.plan(answers),
        procedure.config.telemetry_targets() is Some,
        procedure.config.offchain_worker_enabled,
        procedure.config.role == Role::Authority,
    );
}

/// The kinds of the actions of `plan` from `at` on that make the parts every node is built on.
spec fn partial_shape(plan: Seq<Action>, at: int, reporting: bool) -> bool {
    if reporting {
        &&& plan[at + 0] is NewTelemetryWorker
        &&& plan[at + 1] is NewTelemetry
        &&& plan[at + 2] is NewFullParts
        &&& plan[at + 3] is NewTelemetryWorkerHandle
        &&& plan[at + 4] is SpawnTelemetryWorker
        &&& plan[at + 5] is NewLongestChain
        &&& plan[at + 6] is NewTransactionPool
        &&& plan[at + 7] is NewImportQueue
    } else {
        &&& plan[at + 0] is NewFullParts
        &&& plan[at + 1] is NewLongestChain
        &&& plan[at + 2] is NewTransactionPool
        &&& plan[at + 3] is NewImportQueue
    }
}

/// The kinds of the actions of [`StartNode`].
spec fn node_shape(plan: Seq<Action>, reporting: bool, authority: bool, nimbus: bool) -> bool {
    let at = if reporting {
        9int
    } else {
        5int
    };
    &&& plan[0] is PrepareNodeConfig
    &&& partial_shape(plan, 1, reporting)
    &&& plan[at] is BuildRelayChainNode
    &&& plan[at + 1] is BuildAnnounceValidator
    &&& plan[at + 2] is ShareImportQueue
    &&& plan[at + 3] is BuildNetwork
    &&& plan[at + 4] is SpawnTasks
    &&& if authority && nimbus {
        &&& plan.len() == at + 9
        &&& plan[at + 5] is NewProposerFactory
        &&& plan[at + 6] is BuildNimbusConsensus
        &&& plan[at + 7] is StartCollator
        &&& plan[at + 8] is StartNetwork
    } else if authority {
        &&& plan.len() == at + 8
        &&& plan[at + 5] is BuildConsensus
        &&& plan[at + 6] is StartCollator
        &&& plan[at + 7] is StartNetwork
    } else {
        &&& plan.len() == at + 7
        &&& plan[at + 5] is StartFullNode
        &&& plan[at + 6] is StartNetwork
    }
}

/// The kinds of the actions of [`StartInstantSealNode`].
spec fn instant_seal_shape(
    plan: Seq<Action>,
    reporting: bool,
    offchain: bool,
    authority: bool,
) -> bool {
    let at = if reporting {
        8int
    } else {
        4int
    };
    let tasks = if offchain {
        at + 2
    } else {
        at + 1
    };
    &&& partial_shape(plan, 0, reporting)
    &&& plan[at] is BuildNetwork
    &&& offchain ==> plan[at + 1] is BuildOffchainWorkers
    &&& plan[tasks] is SpawnTasks
    &&& if authority {
        &&& plan.len() == tasks + 5
        &&& plan[tasks + 1] is NewProposerFactory
        &&& plan[tasks + 2] is NewInstantSeal
        &&& plan[tasks + 3] is SpawnInstantSeal
        &&& plan[tasks + 4] is StartNetwork
    } else {
        &&& plan.len() == tasks + 2
        &&& plan[tasks + 1] is StartNetwork
    }
}

/// The plan of [`StartNode`] has its shape.
proof fn lemma_node_shape(procedure: StartNode, answers: Answers)
    ensures
        node_shape(
            procedure.plan(answers),
            answers.configuration->0.telemetry_targets() is Some,
            answers.configuration->0.role == Role::Authority,
            procedure.build_consensus == ConsensusBuilder::Nimbus,
        ),
{
}

/// The plan of [`StartInstantSealNode`] has its shape.
proof fn lemma_instant_seal_shape(procedure: StartInstantSealNode, answers: Answers)
    ensures
        instant_seal_shape(
            procedure.plan(answers),
            procedure.config.telemetry_targets() is Some,
            procedure.config.offchain_worker_enabled,
            procedure.config.role == Role::Authority,
        ),
{
}

/// Which kinds of actions a plan with the shape of [`StartNode`] holds.
proof fn lemma_node_steps(tried: Seq<Action>, reporting: bool, authority: bool, nimbus: bool)
    requires
        node_shape(tried, reporting, authority, nimbus),
    ensures
        ({
            &&& exists|i: int| 0 <= i < tried.len() && (#[trigger] tried[i]) is PrepareNodeConfig
            &&& exists|i: int| 0 <= i < tried.len() && (#[trigger] tried[i]) is NewFullParts
            &&& exists|i: int| 0 <= i < tried.len() && (#[trigger] tried[i]) is NewLongestChain
            &&& exists|i: int| 0 <= i < tried.len() && (#[trigger] tried[i]) is NewTransactionPool
            &&& exists|i: int| 0 <= i < tried.len() && (#[trigger] tried[i]) is NewImportQueue
            &&& reporting <==> exists|i: int|
                0 <= i < tried.len() && (#[trigger] tried[i]) is NewTelemetryWorker
            &&& reporting <==> exists|i: int|
                0 <= i < tried.len() && (#[trigger] tried[i]) is NewTelemetry
            &&& reporting <==> exists|i: int|
                0 <= i < tried.len() && (#[trigger] tried[i]) is NewTelemetryWorkerHandle
            &&& reporting <==> exists|i: int|
                0 <= i < tried.len() && (#[trigger] tried[i]) is SpawnTelemetryWorker
            &&& exists|i: int| 0 <= i < tried.len() && (#[trigger] tried[i]) is BuildRelayChainNode
            &&& exists|i: int|
                0 <= i < tried.len() && (#[trigger] tried[i]) is BuildAnnounceValidator
            &&& exists|i: int| 0 <= i < tried.len() && (#[trigger] tried[i]) is ShareImportQueue
            &&& exists|i: int| 0 <= i < tried.len() && (#[trigger] tried[i]) is BuildNetwork
            &&& exists|i: int| 0 <= i < tried.len() && (#[trigger] tried[i]) is SpawnTasks
            &&& authority && nimbus <==> exists|i: int|
                0 <= i < tried.len() && (#[trigger] tried[i]) is NewProposerFactory
            &&& authority && nimbus <==> exists|i: int|
                0 <= i < tried.len() && (#[trigger] tried[i]) is BuildNimbusConsensus
            &&& authority && !nimbus <==> exists|i: int|
                0 <= i < tried.len() && (#[trigger] tried[i]) is BuildConsensus
            &&& authority <==> exists|i: int|
                0 <= i < tried.len() && (#[trigger] tried[i]) is StartCollator
            &&& !authority <==> exists|i: int|
                0 <= i < tried.len() && (#[trigger] tried[i]) is StartFullNode
            &&& exists|i: int| 0 <= i < tried.len() && (#[trigger] tried[i]) is StartNetwork
            &&& forall|i: int|
                0 <= i < tried.len() ==> match #[trigger] tried[i] {
                    Action::BuildOffchainWorkers(_) => false,
                    Action::NewInstantSeal(_) => false,
                    Action::SpawnInstantSeal { .. } => false,
                    _ => true,
                }
        }),
{
}

/// Which kinds of actions a plan with the shape of [`StartInstantSealNode`] holds.
proof fn lemma_instant_seal_steps(
    tried: Seq<Action>,
    reporting: bool,
    offchain: bool,
    authority: bool,
)
    requires
        instant_seal_shape(tried, reporting, offchain, authority),
    ensures
        ({
            &&& exists|i: int| 0 <= i < tried.len() && (#[trigger] tried[i]) is NewFullParts
            &&& exists|i: int| 0 <= i < tried.len() && (#[trigger] tried[i]) is NewLongestChain
            &&& exists|i: int| 0 <= i < tried.len() && (#[trigger] tried[i]) is NewTransactionPool
            &&& exists|i: int| 0 <= i < tried.len() && (#[trigger] tried[i]) is NewImportQueue
            &&& reporting <==> exists|i: int|
                0 <= i < tried.len() && (#[trigger] tried[i]) is NewTelemetryWorker
            &&& reporting <==> exists|i: int|
                0 <= i < tried.len() && (#[trigger] tried[i]) is NewTelemetry
            &&& reporting <==> exists|i: int|
                0 <= i < tried.len() && (#[trigger] tried[i]) is NewTelemetryWorkerHandle
            &&& reporting <==> exists|i: int|
                0 <= i < tried.len() && (#[trigger] tried[i]) is SpawnTelemetryWorker
            &&& exists|i: int| 0 <= i < tried.len() && (#[trigger] tried[i]) is BuildNetwork
            &&& offchain <==> exists|i: int|
                0 <= i < tried.len() && (#[trigger] tried[i]) is BuildOffchainWorkers
            &&& exists|i: int| 0 <= i < tried.len() && (#[trigger] tried[i]) is SpawnTasks
            &&& authority <==> exists|i: int|
                0 <= i < tried.len() && (#[trigger] tried[i]) is NewProposerFactory
            &&& authority <==> exists|i: int|
                0 <= i < tried.len() && (#[trigger] tried[i]) is NewInstantSeal
            &&& authority <==> exists|i: int|
                0 <= i < tried.len() && (#[trigger] tried[i]) is SpawnInstantSeal
            &&& exists|i: int| 0 <= i < tried.len() && (#[trigger] tried[i]) is StartNetwork
            &&& forall|i: int|
                0 <= i < tried.len() ==> match #[trigger] tried[i] {
                    Action::PrepareNodeConfig { .. } => false,
                    Action::BuildRelayChainNode { .. } => false,
                    Action::BuildAnnounceValidator(_) => false,
                    Action::ShareImportQueue { .. } => false,
                    Action::BuildConsensus(_) => false,
                    Action::BuildNimbusConsensus(_) => false,
                    Action::StartCollator(_) => false,
                    Action::StartFullNode(_) => false,
                    _ => true,
                }
        }),
{
}

/// The actions that make the parts that every node is built on.
proof fn lemma_partial_plan_is_whole(procedure: NewPartial, answers: Answers)
    ensures
        ({
            let tried = procedure.plan(answers);
            let reporting = procedure.config.telemetry_endpoints matches Some(list)
                && !list.is_empty;
            &&& exists|i: int| 0 <= i < tried.len() && (#[trigger] tried[i]) is NewFullParts
            &&& exists|i: int| 0 <= i < tried.len() && (#[trigger] tried[i]) is NewLongestChain
            &&& exists|i: int| 0 <= i < tried.len() && (#[trigger] tried[i]) is NewTransactionPool
            &&& exists|i: int| 0 <= i < tried.len() && (#[trigger] tried[i]) is NewImportQueue
            &&& reporting <==> exists|i: int|
                0 <= i < tried.len() && (#[trigger] tried[i]) is NewTelemetryWorker
            &&& reporting <==> exists|i: int|
                0 <= i < tried.len() && (#[trigger] tried[i]) is NewTelemetry
            &&& reporting <==> exists|i: int|
                0 <= i < tried.len() && (#[trigger] tried[i]) is NewTelemetryWorkerHandle
            &&& reporting <==> exists|i: int|
                0 <= i < tried.len() && (#[trigger] tried[i]) is SpawnTelemetryWorker
            &&& forall|i: int|
                0 <= i < tried.len() ==> match #[trigger] tried[i] {
                    Action::PrepareNodeConfig { .. } => false,
                    Action::BuildRelayChainNode { .. } => false,
                    Action::BuildAnnounceValidator(_) => false,
                    Action::ShareImportQueue { .. } => false,
                    Action::BuildNetwork(_) => false,
                    Action::BuildOffchainWorkers(_) => false,
                    Action::SpawnTasks(_) => false,
                    Action::NewProposerFactory(_) => false,
                    Action::BuildConsensus(_) => false,
                    Action::BuildNimbusConsensus(_) => false,
                    Action::StartCollator(_) => false,
                    Action::StartFullNode(_) => false,
                    Action::NewInstantSeal(_) => false,
                    Action::SpawnInstantSeal { .. } => false,
                    Action::StartNetwork { .. } => false,
                    _ => true,
                }
            &&& tried.len() == crate::partial::partial_len(procedure.config)
        }),
{
    let plan = procedure.plan(answers);
    if procedure.config.telemetry_targets() is Some {
        assert(plan[0] is NewTelemetryWorker);
        assert(plan[1] is NewTelemetry);
        assert(plan[2] is NewFullParts);
        assert(plan[3] is NewTelemetryWorkerHandle);
        assert(plan[4] is SpawnTelemetryWorker);
        assert(plan[5] is NewLongestChain);
        assert(plan[6] is NewTransactionPool);
        assert(plan[7] is NewImportQueue);
    } else {
        assert(plan[0] is NewFullParts);
        assert(plan[1] is NewLongestChain);
        assert(plan[2] is NewTransactionPool);
        assert(plan[3] is NewImportQueue);
    }
}

/// Making the parts that every node is built on ends with the parts that the driver brought, and
/// with telemetry and a handle to its worker exactly where there is an endpoint.
pub proof fn law_partial_ends_with_what_was_made<E>(procedure: NewPartial, replies: Seq<Reply<E>>)
    ensures
        ({
            let end = run(StartupView::<NewPartial, E>::fresh(procedure), replies);
            let reporting = procedure.config.telemetry_endpoints matches Some(list)
                && !list.is_empty;
            end.outcome() matches Some(Ok(parts)) ==> {
                &&& end.answers.full_parts is Some
                &&& parts.client == end.answers.full_parts->0.client
                &&& parts.backend == end.answers.full_parts->0.backend
                &&& parts.task_manager == end.answers.full_parts->0.task_manager
                &&& parts.keystore_container == end.answers.full_parts->0.keystore_container
                &&& end.answers.select_chain == Some(parts.select_chain)
                &&& end.answers.import_queue == Some(parts.import_queue)
                &&& end.answers.transaction_pool == Some(parts.transaction_pool)
                &&& parts.telemetry is Some <==> reporting
                &&& parts.telemetry is Some ==> parts.telemetry == end.answers.telemetry
                &&& parts.telemetry_worker_handle is Some <==> reporting
                &&& parts.telemetry_worker_handle is Some ==> parts.telemetry_worker_handle
                    == end.answers.telemetry_worker_handle
            }
        }),
{
    law_run_follows_plan::<NewPartial, E>(procedure, replies);
    let end = run(StartupView::<NewPartial, E>::fresh(procedure), replies);
    if end.outcome() matches Some(Ok(_)) {
        crate::partial::lemma_partial_holds(
            procedure.runtime,
            procedure.config,
            end.answers,
            end.done,
        );
    }
}

/// A parachain node that has started is the task manager and the client that were made for it.
pub proof fn law_node_ends_with_its_client<E>(procedure: StartNode, replies: Seq<Reply<E>>)
    ensures
        ({
            let end = run(StartupView::<StartNode, E>::fresh(procedure), replies);
            end.outcome() matches Some(Ok(node)) ==> {
                &&& end.answers.full_parts is Some
                &&& node.task_manager == end.answers.full_parts->0.task_manager
                &&& node.client == end.answers.full_parts->0.client
            }
        }),
{
    law_run_follows_plan::<StartNode, E>(procedure, replies);
    let end = run(StartupView::<StartNode, E>::fresh(procedure), replies);
    if end.outcome() matches Some(Ok(_)) {
        let config = end.answers.configuration->0;
        procedure.lemma_holds(end.answers, end.done);
        crate::partial::lemma_partial_holds(
            procedure.runtime,
            config,
            end.answers,
            crate::partial::partial_len(config),
        );
    }
}

/// An instant seal node that has started is the task manager that was made for it.
pub proof fn law_instant_seal_ends_with_its_task_manager<E>(
    procedure: StartInstantSealNode,
    replies: Seq<Reply<E>>,
)
    ensures
        ({
            let end = run(StartupView::<StartInstantSealNode, E>::fresh(procedure), replies);
            end.outcome() matches Some(Ok(task_manager)) ==> {
                &&& end.answers.full_parts is Some
                &&& task_manager == end.answers.full_parts->0.task_manager
            }
        }),
{
    law_run_follows_plan::<StartInstantSealNode, E>(procedure, replies);
    let end = run(StartupView::<StartInstantSealNode, E>::fresh(procedure), replies);
    if end.outcome() matches Some(Ok(_)) {
        procedure.lemma_holds(end.answers, end.done);
        crate::partial::lemma_partial_holds(
            crate::executor::Runtime::of_template(),
            procedure.config,
            end.answers,
            crate::partial::partial_len(procedure.config),
        );
    }
}

} // verus!
