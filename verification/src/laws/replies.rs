//! What a driver's replies do to a start-up, whichever procedure it follows.
use crate::action::{Action, Answer, Reply};
use crate::error::{RelayChainError, ServiceError, ServiceErrorView};
use crate::instant_seal::StartInstantSealNode;
use crate::laws::plans::{
    in_order, law_instant_seal_in_order, law_node_in_order, law_partial_in_order,
};
use crate::laws::runs::{law_run_follows_plan, run};
use crate::parachain::StartNode;
use crate::partial::NewPartial;
use crate::startup::{Answers, Procedure, StartupView};
use vstd::prelude::*;

verus! {

/// A start-up that has not been replied to has done nothing, has not failed, and has been brought
/// nothing.
pub proof fn law_fresh_has_nothing_behind_it<P: Procedure, E>(procedure: P)
    ensures
        ({
            let fresh = StartupView::<P, E>::fresh(procedure);
            &&& fresh.procedure == procedure
            &&& fresh.done == 0
            &&& fresh.failure is None
            &&& fresh.answers.telemetry_worker is None
            &&& fresh.answers.telemetry is None
            &&& fresh.answers.full_parts is None
            &&& fresh.answers.telemetry_worker_handle is None
            &&& fresh.answers.select_chain is None
            &&& fresh.answers.transaction_pool is None
            &&& fresh.answers.import_queue is None
            &&& fresh.answers.configuration is None
            &&& fresh.answers.relay_chain_node is None
            &&& fresh.answers.announce_validator is None
            &&& fresh.answers.shared_import_queue is None
            &&& fresh.answers.network is None
            &&& fresh.answers.proposer_factory is None
            &&& fresh.answers.consensus is None
            &&& fresh.answers.seal_task is None
        }),
{
}

/// An answer is looked up as it came, and takes the place of nothing but an earlier answer of its
/// kind.
pub proof fn law_answer_is_looked_up_as_it_came(answers: Answers, answer: Answer)
    ensures
        ({
            let kept = answers.with(answer);
            &&& kept.telemetry_worker == if answer is TelemetryWorker {
                Some(answer->TelemetryWorker_0)
            } else {
                answers.telemetry_worker
            }
            &&& kept.telemetry == if answer is Telemetry {
                Some(answer->Telemetry_0)
            } else {
                answers.telemetry
            }
            &&& kept.full_parts == if answer is FullParts {
                Some(answer->FullParts_0)
            } else {
                answers.full_parts
            }
            &&& kept.telemetry_worker_handle == if answer is TelemetryWorkerHandle {
                Some(answer->TelemetryWorkerHandle_0)
            } else {
                answers.telemetry_worker_handle
            }
            &&& kept.select_chain == if answer is SelectChain {
                Some(answer->SelectChain_0)
            } else {
                answers.select_chain
            }
            &&& kept.transaction_pool == if answer is TransactionPool {
                Some(answer->TransactionPool_0)
            } else {
                answers.transaction_pool
            }
            &&& kept.import_queue == if answer is ImportQueue {
                Some(answer->ImportQueue_0)
            } else {
                answers.import_queue
            }
            &&& kept.configuration == if answer is Configuration {
                Some(answer->Configuration_0)
            } else {
                answers.configuration
            }
            &&& kept.relay_chain_node == if answer is RelayChainNode {
                Some(answer->RelayChainNode_0)
            } else {
                answers.relay_chain_node
            }
            &&& kept.announce_validator == if answer is AnnounceValidator {
                Some(answer->AnnounceValidator_0)
            } else {
                answers.announce_validator
            }
            &&& kept.shared_import_queue == if answer is SharedImportQueue {
                Some(answer->SharedImportQueue_0)
            } else {
                answers.shared_import_queue
            }
            &&& kept.network == if answer is Network {
                Some(answer->Network_0)
            } else {
                answers.network
            }
            &&& kept.proposer_factory == if answer is ProposerFactory {
                Some(answer->ProposerFactory_0)
            } else {
                answers.proposer_factory
            }
            &&& kept.consensus == if answer is Consensus {
                Some(answer->Consensus_0)
            } else {
                answers.consensus
            }
            &&& kept.seal_task == if answer is SealTask {
                Some(answer->SealTask_0)
            } else {
                answers.seal_task
            }
        }),
{
}

/// An answer is taken exactly where it brings what the action that is due is to bring.
pub proof fn law_answer_is_taken_where_it_is_due<P: Procedure, E>(
    state: StartupView<P, E>,
    answer: Answer,
)
    ensures
        state.accepts(Reply::Given(answer)) <==> (match (state.due(), answer) {
            (Some(Action::NewTelemetryWorker { .. }), Answer::TelemetryWorker(_)) => true,
            (Some(Action::NewTelemetry { .. }), Answer::Telemetry(_)) => true,
            (Some(Action::NewFullParts { .. }), Answer::FullParts(_)) => true,
            (
                Some(Action::NewTelemetryWorkerHandle { .. }),
                Answer::TelemetryWorkerHandle(_),
            ) => true,
            (Some(Action::SpawnTelemetryWorker { .. }), Answer::Done) => true,
            (Some(Action::NewLongestChain { .. }), Answer::SelectChain(_)) => true,
            (Some(Action::NewTransactionPool(_)), Answer::TransactionPool(_)) => true,
            (Some(Action::NewImportQueue(_)), Answer::ImportQueue(_)) => true,
            (Some(Action::PrepareNodeConfig { .. }), Answer::Configuration(_)) => true,
            (Some(Action::BuildRelayChainNode { .. }), Answer::RelayChainNode(_)) => true,
            (Some(Action::BuildAnnounceValidator(_)), Answer::AnnounceValidator(_)) => true,
            (Some(Action::ShareImportQueue { .. }), Answer::SharedImportQueue(_)) => true,
            (Some(Action::BuildNetwork(_)), Answer::Network(_)) => true,
            (Some(Action::BuildOffchainWorkers(_)), Answer::Done) => true,
            (Some(Action::SpawnTasks(_)), Answer::Done) => true,
            (Some(Action::NewProposerFactory(_)), Answer::ProposerFactory(_)) => true,
            (Some(Action::BuildConsensus(_)), Answer::Consensus(_)) => true,
            (Some(Action::BuildNimbusConsensus(_)), Answer::Consensus(_)) => true,
            (Some(Action::StartCollator(_)), Answer::Done) => true,
            (Some(Action::StartFullNode(_)), Answer::Done) => true,
            (Some(Action::NewInstantSeal(_)), Answer::SealTask(_)) => true,
            (Some(Action::SpawnInstantSeal { .. }), Answer::Done) => true,
            (Some(Action::StartNetwork { .. }), Answer::Done) => true,
            _ => false,
        }),
{
}

/// An answer that is taken counts for one action, and is kept; nothing fails by it.
pub proof fn law_answer_counts_once<P: Procedure, E>(state: StartupView<P, E>, answer: Answer)
    requires
        state.accepts(Reply::Given(answer)),
    ensures
        ({
            let after = state.after(Reply::Given(answer));
            &&& after.procedure == state.procedure
            &&& after.done == state.done + 1
            &&& after.failure is None
            &&& after.answers == state.answers.with(answer)
        }),
{
}

/// A reply that is passed over changes nothing.
pub proof fn law_passed_over_changes_nothing<P: Procedure, E>(
    state: StartupView<P, E>,
    reply: Reply<E>,
)
    requires
        !state.accepts(reply),
    ensures
        state.after(reply) == state,
{
}

/// Telemetry workers, clients, import queues, networks, tasks, consensuses of the driver's own,
/// collators and full nodes can fail to come about, and nothing else can. The start-up then fails
/// with the very failure that was reported, and what was there before stays as it was.
pub proof fn law_failure_is_passed_on_as_it_came<P: Procedure, E>(
    state: StartupView<P, E>,
    failure: E,
)
    ensures
        ({
            let after = state.after(Reply::Failed(failure));
            let may_fail = match state.due() {
                Some(Action::NewTelemetryWorker { .. }) => true,
                Some(Action::NewFullParts { .. }) => true,
                Some(Action::NewImportQueue(_)) => true,
                Some(Action::BuildNetwork(_)) => true,
                Some(Action::SpawnTasks(_)) => true,
                Some(Action::BuildConsensus(_)) => true,
                Some(Action::StartCollator(_)) => true,
                Some(Action::StartFullNode(_)) => true,
                _ => false,
            };
            &&& state.accepts(Reply::Failed(failure)) <==> may_fail
            &&& !may_fail ==> after == state
            &&& may_fail ==> {
                &&& after.outcome() == Some(
                    Err::<P::Output, ServiceErrorView<E>>(ServiceErrorView::Service(failure)),
                )
                &&& after.due() is None
                &&& after.procedure == state.procedure
                &&& after.answers == state.answers
                &&& after.done == state.done
            }
        }),
{
}

/// Where the relay chain node cannot be built, a failure of the service under it is passed on as it
/// came, and a failure of its own is passed on in its own words. No other action fails in this way.
pub proof fn law_relay_chain_failure_is_passed_on<P: Procedure, E>(
    state: StartupView<P, E>,
    failure: RelayChainError<E>,
)
    ensures
        ({
            let after = state.after(Reply::RelayChainFailed(failure));
            let building = state.due() matches Some(Action::BuildRelayChainNode { .. });
            &&& state.accepts(Reply::RelayChainFailed(failure)) <==> building
            &&& !building ==> after == state
            &&& building ==> {
                &&& after.outcome() == Some(
                    Err::<P::Output, ServiceErrorView<E>>(
                        match failure {
                            RelayChainError::Sub(e) => ServiceErrorView::Service(e),
                            RelayChainError::Own(words) => ServiceErrorView::Other(words@),
                        },
                    ),
                )
                &&& after.due() is None
                &&& after.procedure == state.procedure
                &&& after.answers == state.answers
                &&& after.done == state.done
            }
        }),
{
}

/// A start-up that has failed ends with that failure. Any other asks for the actions of its plan,
/// each when all before it have been carried out, and ends well when there is none left.
pub proof fn law_end_is_failure_or_output<P: Procedure, E>(state: StartupView<P, E>)
    requires
        state.wf(),
    ensures
        state.failure matches Some(error) ==> {
            &&& state.due() is None
            &&& state.outcome() == Some(Err::<P::Output, ServiceErrorView<E>>(error))
        },
        state.failure is None && state.done < state.procedure.plan(state.answers).len() ==> {
            &&& state.due() == Some(state.procedure.plan(state.answers)[state.done])
            &&& state.outcome() is None
        },
        state.failure is None && state.done >= state.procedure.plan(state.answers).len() ==> {
            &&& state.due() is None
            &&& state.outcome() == Some(
                Ok::<P::Output, ServiceErrorView<E>>(state.procedure.output(state.answers)),
            )
        },
{
}

/// Two errors say the same only where they hold the same: the same report, or the same words.
pub proof fn law_errors_say_what_they_hold<E>(one: ServiceError<E>, other: ServiceError<E>)
    ensures
        one@ == other@ <==> (match (one, other) {
            (ServiceError::Service(e), ServiceError::Service(f)) => e == f,
            (ServiceError::Other(words), ServiceError::Other(others)) => words@ == others@,
            _ => false,
        }),
        one matches ServiceError::Service(e) ==> one@ == ServiceErrorView::Service(e),
        one matches ServiceError::Other(words) ==> one@ == ServiceErrorView::<E>::Other(words@),
{
}

/// Whether what `answer` brought is what is there of its kind.
pub open spec fn stands(answers: Answers, answer: Answer) -> bool {
    match answer {
        Answer::Done => true,
        Answer::TelemetryWorker(id) => answers.telemetry_worker == Some(id),
        Answer::Telemetry(id) => answers.telemetry == Some(id),
        Answer::FullParts(parts) => answers.full_parts == Some(parts),
        Answer::TelemetryWorkerHandle(id) => answers.telemetry_worker_handle == Some(id),
        Answer::SelectChain(id) => answers.select_chain == Some(id),
        Answer::TransactionPool(id) => answers.transaction_pool == Some(id),
        Answer::ImportQueue(id) => answers.import_queue == Some(id),
        Answer::Configuration(config) => answers.configuration == Some(config),
        Answer::RelayChainNode(id) => answers.relay_chain_node == Some(id),
        Answer::AnnounceValidator(id) => answers.announce_validator == Some(id),
        Answer::SharedImportQueue(id) => answers.shared_import_queue == Some(id),
        Answer::Network(parts) => answers.network == Some(parts),
        Answer::ProposerFactory(id) => answers.proposer_factory == Some(id),
        Answer::Consensus(id) => answers.consensus == Some(id),
        Answer::SealTask(id) => answers.seal_task == Some(id),
    }
}

/// An answer stands to the end where no two actions of a plan bring the same kind. Gives the place
/// in the plan of the action that it answered.
proof fn lemma_answer_stands<P: Procedure, E>(
    procedure: P,
    replies: Seq<Reply<E>>,
    k: int,
    answer: Answer,
) -> (at: int)
    requires
        forall|answers: Answers| in_order(#[trigger] procedure.plan(answers)),
        0 <= k < replies.len(),
        replies[k] == Reply::<E>::Given(answer),
        run(StartupView::<P, E>::fresh(procedure), replies.take(k)).accepts(replies[k]),
    ensures
        ({
            let end = run(StartupView::<P, E>::fresh(procedure), replies);
            &&& stands(end.answers, answer)
            &&& 0 <= at < end.done <= end.plan().len()
            &&& crate::action::brings(end.plan()[at], answer)
        }),
    decreases replies.len(),
{
    let start = StartupView::<P, E>::fresh(procedure);
    let earlier = replies.drop_last();
    let before = run(start, earlier);
    let last = replies.last();
    law_run_follows_plan::<P, E>(procedure, earlier);
    law_run_follows_plan::<P, E>(procedure, replies);
    if before.accepts(last) && last is Given {
        procedure.past_stands(before.answers, before.done, last->Given_0);
    }
    if k == replies.len() - 1 {
        assert(replies.take(k) == earlier);
        before.done
    } else {
        assert(earlier.take(k) == replies.take(k));
        let at = lemma_answer_stands::<P, E>(procedure, earlier, k, answer);
        assert(in_order(procedure.plan(before.answers)));
        if before.accepts(last) && last is Given {
            assert(crate::laws::plans::place(before.plan()[at]) < crate::laws::plans::place(
                before.plan()[before.done],
            ));
        }
        at
    }
}

/// While the parts that every node is built on are made, what the driver answered stands to the
/// end.
pub proof fn law_partial_goes_by_what_was_answered<E>(
    procedure: NewPartial,
    replies: Seq<Reply<E>>,
    k: int,
    answer: Answer,
)
    requires
        0 <= k < replies.len(),
        replies[k] == Reply::<E>::Given(answer),
        run(StartupView::<NewPartial, E>::fresh(procedure), replies.take(k)).accepts(replies[k]),
    ensures
        stands(run(StartupView::<NewPartial, E>::fresh(procedure), replies).answers, answer),
{
    assert forall|answers: Answers| in_order(#[trigger] procedure.plan(answers)) by {
        law_partial_in_order(procedure, answers);
    }
    lemma_answer_stands::<NewPartial, E>(procedure, replies, k, answer);
}

/// While a parachain node is started, what the driver answered stands to the end. So the
/// configuration that the node goes by is the one that the driver prepared.
pub proof fn law_node_goes_by_what_was_answered<E>(
    procedure: StartNode,
    replies: Seq<Reply<E>>,
    k: int,
    answer: Answer,
)
    requires
        0 <= k < replies.len(),
        replies[k] == Reply::<E>::Given(answer),
        run(StartupView::<StartNode, E>::fresh(procedure), replies.take(k)).accepts(replies[k]),
    ensures
        stands(run(StartupView::<StartNode, E>::fresh(procedure), replies).answers, answer),
{
    assert forall|answers: Answers| in_order(#[trigger] procedure.plan(answers)) by {
        law_node_in_order(procedure, answers);
    }
    lemma_answer_stands::<StartNode, E>(procedure, replies, k, answer);
}

/// While an instant seal node is started, what the driver answered stands to the end.
pub proof fn law_instant_seal_goes_by_what_was_answered<E>(
    procedure: StartInstantSealNode,
    replies: Seq<Reply<E>>,
    k: int,
    answer: Answer,
)
    requires
        0 <= k < replies.len(),
        replies[k] == Reply::<E>::Given(answer),
        run(
            StartupView::<StartInstantSealNode, E>::fresh(procedure),
            replies.take(k),
        ).accepts(replies[k]),
    ensures
        stands(
            run(StartupView::<StartInstantSealNode, E>::fresh(procedure), replies).answers,
            answer,
        ),
{
    assert forall|answers: Answers| in_order(#[trigger] procedure.plan(answers)) by {
        law_instant_seal_in_order(procedure, answers);
    }
    lemma_answer_stands::<StartInstantSealNode, E>(procedure, replies, k, answer);
}

} // verus!
