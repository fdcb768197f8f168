//! What the three procedures do: in which order, for which roles, and what they leave out.
use crate::action::{Action, Reply};
use crate::components::ParachainNode;
use crate::config::Role;
use crate::consensus::ConsensusBuilder;
use crate::error::ServiceErrorView;
use crate::executor::Runtime;
use crate::instant_seal::StartInstantSealNode;
use crate::laws::runs::{
    attempted, failed_at, law_ended_stays, law_error_is_first_failure, law_run_follows_plan,
    law_success_means_whole_plan, run,
};
use crate::parachain::StartNode;
use crate::partial::NewPartial;
use crate::startup::{Answers, Procedure, StartupView};
use vstd::prelude::*;

verus! {

/// A parachain node that is configured as a light client is turned down: nothing is attempted,
/// and the start-up fails with the same words whatever its driver replies.
pub proof fn law_light_client_is_turned_down<E>(procedure: StartNode, replies: Seq<Reply<E>>)
    requires
        procedure.parachain_config.role == Role::Light,
    ensures
        attempted(procedure.at_the_start::<E>(), replies) == Seq::<Action>::empty(),
        run(procedure.at_the_start::<E>(), replies).outcome() == Some(
            Err::<ParachainNode, ServiceErrorView<E>>(
                ServiceErrorView::Other("Light client not supported!"@),
            ),
        ),
{
    law_ended_stays(procedure.at_the_start::<E>(), replies);
}

/// The place of an action in a start-up. Actions that no plan holds together share a place.
pub open spec fn place(action: Action) -> int {
    match action {
        Action::PrepareNodeConfig { .. } => 0,
        Action::NewTelemetryWorker { .. } => 1,
        Action::NewTelemetry { .. } => 2,
        Action::NewFullParts { .. } => 3,
        Action::NewTelemetryWorkerHandle { .. } => 4,
        Action::SpawnTelemetryWorker { .. } => 5,
        Action::NewLongestChain { .. } => 6,
        Action::NewTransactionPool(_) => 7,
        Action::NewImportQueue(_) => 8,
        Action::BuildRelayChainNode { .. } => 9,
        Action::BuildAnnounceValidator(_) => 10,
        Action::ShareImportQueue { .. } => 11,
        Action::BuildNetwork(_) => 12,
        Action::BuildOffchainWorkers(_) => 13,
        Action::SpawnTasks(_) => 14,
        Action::NewProposerFactory(_) => 15,
        Action::BuildConsensus(_) => 16,
        Action::BuildNimbusConsensus(_) => 16,
        Action::NewInstantSeal(_) => 16,
        Action::StartCollator(_) => 17,
        Action::StartFullNode(_) => 17,
        Action::SpawnInstantSeal { .. } => 17,
        Action::StartNetwork { .. } => 18,
    }
}

/// Whether no action stands before one with an earlier place, or with the same.
pub open spec fn in_order(plan: Seq<Action>) -> bool {
    forall|i: int, j: int|
        0 <= i < j < plan.len() ==> place(#[trigger] plan[i]) < place(#[trigger] plan[j])
}

/// Whether the places of all actions lie between `low` and `high`.
pub open spec fn placed_between(plan: Seq<Action>, low: int, high: int) -> bool {
    forall|i: int| 0 <= i < plan.len() ==> low <= place(#[trigger] plan[i]) <= high
}

/// Two plans that are in order, the second behind the first, make one that is.
proof fn lemma_in_order_joined(
    first: Seq<Action>,
    second: Seq<Action>,
    low: int,
    mid: int,
    high: int,
)
    requires
        in_order(first),
        in_order(second),
        placed_between(first, low, mid),
        placed_between(second, mid + 1, high),
        low <= mid,
        mid < high,
    ensures
        in_order(first + second),
        placed_between(first + second, low, high),
{
    let joined = first + second;
    assert forall|i: int| 0 <= i < joined.len() implies low <= place(#[trigger] joined[i])
        <= high by {
        if i < first.len() {
            assert(joined[i] == first[i]);
        } else {
            assert(joined[i] == second[i - first.len()]);
        }
    }
    assert forall|i: int, j: int| 0 <= i < j < joined.len() implies place(#[trigger] joined[i])
        < place(#[trigger] joined[j]) by {
        if j < first.len() {
            assert(joined[i] == first[i] && joined[j] == first[j]);
        } else if i < first.len() {
            assert(joined[i] == first[i] && joined[j] == second[j - first.len()]);
        } else {
            assert(joined[i] == second[i - first.len()] && joined[j] == second[j - first.len()]);
        }
    }
}

/// The parts that every node is built on are made in order, each at most once.
pub proof fn law_partial_in_order(procedure: NewPartial, answers: Answers)
    ensures
        in_order(procedure.plan(answers)),
        placed_between(procedure.plan(answers), 1, 8),
{
}

/// A parachain node is started in order, and every kind of action is asked for at most once.
pub proof fn law_node_in_order(procedure: StartNode, answers: Answers)
    ensures
        in_order(procedure.plan(answers)),
        placed_between(procedure.plan(answers), 0, 18),
{
    let config = answers.configuration->0;
    let prepare = seq![Action::PrepareNodeConfig { config: procedure.parachain_config.id }];
    let partial = crate::partial::partial_plan(procedure.runtime, config, answers);
    let node = crate::parachain::node_plan(
        procedure.polkadot_config,
        procedure.id,
        config,
        answers,
    );
    let role = crate::parachain::role_plan(
        procedure.id,
        procedure.build_consensus,
        config,
        answers,
    );
    let network = seq![
        Action::StartNetwork { network_starter: answers.network->0.network_starter },
    ];
    law_partial_in_order(NewPartial { runtime: procedure.runtime, config }, answers);
    lemma_in_order_joined(prepare, partial, 0, 0, 8);
    lemma_in_order_joined(prepare + partial, node, 0, 8, 14);
    lemma_in_order_joined(prepare + partial + node, role, 0, 14, 17);
    lemma_in_order_joined(prepare + partial + node + role, network, 0, 17, 18);
}

/// An instant seal node is started in order, and every kind of action is asked for at most once.
pub proof fn law_instant_seal_in_order(procedure: StartInstantSealNode, answers: Answers)
    ensures
        in_order(procedure.plan(answers)),
        placed_between(procedure.plan(answers), 1, 18),
{
    let runtime = Runtime::of_template();
    let config = procedure.config;
    let partial = crate::partial::partial_plan(runtime, config, answers);
    let late = crate::instant_seal::late_plan(config, answers);
    law_partial_in_order(NewPartial { runtime, config }, answers);
    assert(in_order(late) && placed_between(late, 9, 18));
    lemma_in_order_joined(partial, late, 1, 8, 18);
}

/// A parachain node makes the parts that every node is built on right after it has prepared its
/// configuration, and goes by the prepared configuration.
pub proof fn law_node_builds_on_partial(procedure: StartNode, answers: Answers)
    ensures
        ({
            let config = answers.configuration->0;
            let partial = (NewPartial { runtime: procedure.runtime, config }).plan(answers);
            &&& procedure.plan(answers).len() > partial.len()
            &&& procedure.plan(answers).subrange(1, 1 + partial.len() as int) == partial
        }),
{
}

/// An instant seal node makes the parts that every node is built on first.
pub proof fn law_instant_seal_builds_on_partial(procedure: StartInstantSealNode, answers: Answers)
    ensures
        ({
            let partial = (NewPartial {
                runtime: Runtime::of_template(),
                config: procedure.config,
            }).plan(answers);
            &&& procedure.plan(answers).len() > partial.len()
            &&& procedure.plan(answers).take(partial.len() as int) == partial
        }),
{
}

/// Telemetry is set up, and its worker run, exactly where there is an endpoint to send it to: a
/// configuration without a list of endpoints is treated as one with an empty list.
pub proof fn law_telemetry_needs_an_endpoint(procedure: NewPartial, answers: Answers)
    ensures
        ({
            let plan = procedure.plan(answers);
            let wanted = procedure.config.telemetry_endpoints matches Some(endpoints)
                && !endpoints.is_empty;
            &&& wanted <==> exists|k: int|
                0 <= k < plan.len() && (#[trigger] plan[k]) is NewTelemetryWorker
            &&& wanted <==> exists|k: int|
                0 <= k < plan.len() && (#[trigger] plan[k]) is NewTelemetry
            &&& wanted <==> exists|k: int|
                0 <= k < plan.len() && (#[trigger] plan[k]) is SpawnTelemetryWorker
            &&& answers.hold_first(plan, plan.len() as int) ==> {
                &&& wanted <==> procedure.output(answers).telemetry is Some
                &&& wanted <==> procedure.output(answers).telemetry_worker_handle is Some
            }
        }),
{
    let plan = procedure.plan(answers);
    if procedure.config.telemetry_targets() is Some {
        assert(plan[0] is NewTelemetryWorker);
        assert(plan[1] is NewTelemetry);
        assert(plan[4] is SpawnTelemetryWorker);
    }
    if answers.hold_first(plan, plan.len() as int) {
        crate::partial::lemma_partial_holds(
            procedure.runtime,
            procedure.config,
            answers,
            plan.len() as int,
        );
    }
}

/// An authority has a consensus built and collates; any other node is started as a full node. No
/// node is both.
pub proof fn law_authorities_collate(procedure: StartNode, answers: Answers)
    ensures
        ({
            let plan = procedure.plan(answers);
            let authority = answers.configuration->0.role == Role::Authority;
            let nimbus = procedure.build_consensus == ConsensusBuilder::Nimbus;
            &&& authority <==> exists|k: int|
                0 <= k < plan.len() && (#[trigger] plan[k]) is StartCollator
            &&& !authority <==> exists|k: int|
                0 <= k < plan.len() && (#[trigger] plan[k]) is StartFullNode
            &&& authority && nimbus <==> exists|k: int|
                0 <= k < plan.len() && (#[trigger] plan[k]) is BuildNimbusConsensus
            &&& authority && !nimbus <==> exists|k: int|
                0 <= k < plan.len() && (#[trigger] plan[k]) is BuildConsensus
        }),
{
    let config = answers.configuration->0;
    let plan = procedure.plan(answers);
    let front = 6 + crate::partial::partial_len(config);
    let role = crate::parachain::role_plan(
        procedure.id,
        procedure.build_consensus,
        config,
        answers,
    );
    assert forall|k: int| 0 <= k < plan.len() implies if front <= k < front + role.len() {
        #[trigger] plan[k] == role[k - front]
    } else {
        place(plan[k]) < 15 || place(plan[k]) == 18
    } by {
    }
    assert(forall|i: int| 0 <= i < role.len() ==> plan[front + i] == #[trigger] role[i]);
    if config.role == Role::Authority {
        match procedure.build_consensus {
            ConsensusBuilder::Driver => {
                assert(role[0] is BuildConsensus);
                assert(role[1] is StartCollator);
            },
            ConsensusBuilder::Nimbus => {
                assert(role[0] is NewProposerFactory);
                assert(role[1] is BuildNimbusConsensus);
                assert(role[2] is StartCollator);
            },
        }
    } else {
        assert(role[0] is StartFullNode);
    }
}

/// Leaving the consensus to Nimbus changes one thing of a start-up: where the driver would be
/// asked to build a consensus, the two actions that build a Nimbus consensus are asked for, and
/// they are given the same. A node that is no authority has no consensus, and nothing changes.
pub proof fn law_nimbus_stands_in_for_the_driver(by_driver: StartNode, answers: Answers)
    requires
        by_driver.build_consensus == ConsensusBuilder::Driver,
    ensures
        ({
            let by_nimbus = StartNode { build_consensus: ConsensusBuilder::Nimbus, ..by_driver };
            let config = answers.configuration->0;
            let driven = by_driver.plan(answers);
            let plan = by_nimbus.plan(answers);
            if config.role == Role::Authority {
                exists|at: int|
                    {
                        let params = (#[trigger] driven[at])->BuildConsensus_0;
                        &&& 0 <= at < driven.len()
                        &&& driven[at] is BuildConsensus
                        &&& plan == driven.take(at) + ConsensusBuilder::Nimbus.plan(
                            by_driver.id,
                            params,
                            answers,
                        ) + driven.skip(at + 1)
                    }
            } else {
                plan == driven
            }
        }),
{
    let by_nimbus = StartNode { build_consensus: ConsensusBuilder::Nimbus, ..by_driver };
    let config = answers.configuration->0;
    let driven = by_driver.plan(answers);
    if config.role == Role::Authority {
        let at = 6 + crate::partial::partial_len(config);
        let params = crate::parachain::consensus_params(config, answers);
        assert(driven[at] == Action::BuildConsensus(params));
        assert(by_nimbus.plan(answers) == driven.take(at) + ConsensusBuilder::Nimbus.plan(
            by_driver.id,
            params,
            answers,
        ) + driven.skip(at + 1));
    } else {
        assert(by_nimbus.plan(answers) == driven);
    }
}

/// The off-chain workers are built exactly where they are enabled, and blocks are sealed exactly
/// where the node is an authority.
pub proof fn law_authorities_seal(procedure: StartInstantSealNode, answers: Answers)
    ensures
        ({
            let plan = procedure.plan(answers);
            let authority = procedure.config.role == Role::Authority;
            &&& procedure.config.offchain_worker_enabled <==> exists|k: int|
                0 <= k < plan.len() && (#[trigger] plan[k]) is BuildOffchainWorkers
            &&& authority <==> exists|k: int|
                0 <= k < plan.len() && (#[trigger] plan[k]) is NewInstantSeal
            &&& authority <==> exists|k: int|
                0 <= k < plan.len() && (#[trigger] plan[k]) is SpawnInstantSeal
        }),
{
    let plan = procedure.plan(answers);
    let front = crate::partial::partial_len(procedure.config);
    let late = crate::instant_seal::late_plan(procedure.config, answers);
    let offchain = crate::instant_seal::offchain_len(procedure.config);
    assert forall|k: int| 0 <= k < plan.len() implies if front <= k {
        #[trigger] plan[k] == late[k - front]
    } else {
        place(plan[k]) < 9
    } by {
    }
    assert(forall|i: int| 0 <= i < late.len() ==> plan[front + i] == #[trigger] late[i]);
    if procedure.config.offchain_worker_enabled {
        assert(late[1] is BuildOffchainWorkers);
    }
    if procedure.config.role == Role::Authority {
        assert(late[offchain + 3] is NewInstantSeal);
        assert(late[offchain + 4] is SpawnInstantSeal);
    }
}

/// The network of a parachain node is started once, and as the last thing: while anything else
/// can still fail, nothing has gone out to the network, and a start-up that failed never started
/// it.
pub proof fn law_node_network_starts_last<E>(procedure: StartNode, replies: Seq<Reply<E>>)
    ensures
        ({
            let start = StartupView::<StartNode, E>::fresh(procedure);
            let end = run(start, replies);
            let tried = attempted(start, replies);
            &&& end.plan().last() == (Action::StartNetwork {
                network_starter: end.answers.network->0.network_starter,
            })
            &&& forall|k: int|
                0 <= k < tried.len() && (#[trigger] tried[k]) is StartNetwork ==> k + 1
                    == end.plan().len() && k + 1 == tried.len()
            &&& end.outcome() matches Some(Ok(_)) ==> tried.last() is StartNetwork
            &&& end.outcome() matches Some(Err(_)) ==> forall|k: int|
                0 <= k < tried.len() ==> !((#[trigger] tried[k]) is StartNetwork)
        }),
{
    let start = StartupView::<StartNode, E>::fresh(procedure);
    let end = run(start, replies);
    let plan = end.plan();
    law_run_follows_plan::<StartNode, E>(procedure, replies);
    law_node_in_order(procedure, end.answers);
    lemma_only_last_starts_network(plan);
    if end.outcome() matches Some(Ok(_)) {
        law_success_means_whole_plan::<StartNode, E>(procedure, replies);
    }
    if end.failure is Some {
        let error = end.failure->0;
        law_error_is_first_failure::<StartNode, E>(procedure, replies, error);
        let k = choose|k: int| #[trigger] failed_at(start, replies, k, error);
        assert(crate::action::fits(plan[end.done], replies[k]));
    }
}

/// The network of an instant seal node is started once, and as the last thing: while anything else
/// can still fail, nothing has gone out to the network, and a start-up that failed never started
/// it.
pub proof fn law_instant_seal_network_starts_last<E>(
    procedure: StartInstantSealNode,
    replies: Seq<Reply<E>>,
)
    ensures
        ({
            let start = StartupView::<StartInstantSealNode, E>::fresh(procedure);
            let end = run(start, replies);
            let tried = attempted(start, replies);
            &&& end.plan().last() == (Action::StartNetwork {
                network_starter: end.answers.network->0.network_starter,
            })
            &&& forall|k: int|
                0 <= k < tried.len() && (#[trigger] tried[k]) is StartNetwork ==> k + 1
                    == end.plan().len() && k + 1 == tried.len()
            &&& end.outcome() matches Some(Ok(_)) ==> tried.last() is StartNetwork
            &&& end.outcome() matches Some(Err(_)) ==> forall|k: int|
                0 <= k < tried.len() ==> !((#[trigger] tried[k]) is StartNetwork)
        }),
{
    let start = StartupView::<StartInstantSealNode, E>::fresh(procedure);
    let end = run(start, replies);
    let plan = end.plan();
    law_run_follows_plan::<StartInstantSealNode, E>(procedure, replies);
    law_instant_seal_in_order(procedure, end.answers);
    lemma_only_last_starts_network(plan);
    if end.outcome() matches Some(Ok(_)) {
        law_success_means_whole_plan::<StartInstantSealNode, E>(procedure, replies);
    }
    if end.failure is Some {
        let error = end.failure->0;
        law_error_is_first_failure::<StartInstantSealNode, E>(procedure, replies, error);
        let k = choose|k: int| #[trigger] failed_at(start, replies, k, error);
        assert(crate::action::fits(plan[end.done], replies[k]));
    }
}

/// Nothing has a place behind the start of the network.
proof fn lemma_only_last_starts_network(plan: Seq<Action>)
    requires
        in_order(plan),
        plan.len() > 0,
        plan.last() is StartNetwork,
    ensures
        forall|k: int|
            0 <= k < plan.len() && (#[trigger] plan[k]) is StartNetwork ==> k + 1 == plan.len(),
{
    assert forall|k: int| 0 <= k < plan.len() && (#[trigger] plan[k]) is StartNetwork implies k + 1
        == plan.len() by {
        if k + 1 < plan.len() {
            assert(place(plan[k]) < place(plan[plan.len() - 1]));
        }
    }
}

} // verus!
