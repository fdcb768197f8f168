//! The machine that carries a start-up out.
//!
//! What a start-up does is a [`Procedure`]: a plan, that is, the actions to ask for, in order. An
//! action names parts that earlier actions brought, so a plan is a function of the answers. A
//! [`Startup`] asks for the actions of a plan one at a time, keeps the answers, and ends with the
//! procedure's output or with the first failure.
use crate::action::{Action, Answer, Reply};
use crate::components::{
    AnnounceValidatorId, ConsensusId, FullParts, ImportQueueId, NetworkParts, ProposerFactoryId,
    RelayChainNodeId, SealTaskId, SelectChainId, SharedImportQueueId, TelemetryId,
    TelemetryWorkerHandleId, TelemetryWorkerId, TransactionPoolId,
};
use crate::config::Configuration;
use crate::error::{ServiceError, ServiceErrorView};
use vstd::prelude::*;

verus! {

/// The most actions that any plan holds.
pub const MAX_ACTIONS: usize = 18;

/// What the answers of a start-up have brought so far.
#[derive(Clone, Copy, Debug, PartialEq, Eq, Structural)]
pub struct Answers {
    pub telemetry_worker: Option<TelemetryWorkerId>,
    pub telemetry: Option<TelemetryId>,
    pub full_parts: Option<FullParts>,
    pub telemetry_worker_handle: Option<TelemetryWorkerHandleId>,
    pub select_chain: Option<SelectChainId>,
    pub transaction_pool: Option<TransactionPoolId>,
    pub import_queue: Option<ImportQueueId>,
    pub configuration: Option<Configuration>,
    pub relay_chain_node: Option<RelayChainNodeId>,
    pub announce_validator: Option<AnnounceValidatorId>,
    pub shared_import_queue: Option<SharedImportQueueId>,
    pub network: Option<NetworkParts>,
    pub proposer_factory: Option<ProposerFactoryId>,
    pub consensus: Option<ConsensusId>,
    pub seal_task: Option<SealTaskId>,
}

impl Answers {
    /// What has been brought before the first answer: nothing.
    pub open spec fn nothing() -> Answers {
        Answers {
            telemetry_worker: None,
            telemetry: None,
            full_parts: None,
            telemetry_worker_handle: None,
            select_chain: None,
            transaction_pool: None,
            import_queue: None,
            configuration: None,
            relay_chain_node: None,
            announce_validator: None,
            shared_import_queue: None,
            network: None,
            proposer_factory: None,
            consensus: None,
            seal_task: None,
        }
    }

    /// What has been brought once `answer` has come too.
    pub open spec fn with(self, answer: Answer) -> Answers {
        match answer {
            Answer::Done => self,
            Answer::TelemetryWorker(id) => Answers { telemetry_worker: Some(id), ..self },
            Answer::Telemetry(id) => Answers { telemetry: Some(id), ..self },
            Answer::FullParts(parts) => Answers { full_parts: Some(parts), ..self },
            Answer::TelemetryWorkerHandle(id) => {
                Answers { telemetry_worker_handle: Some(id), ..self }
            },
            Answer::SelectChain(id) => Answers { select_chain: Some(id), ..self },
            Answer::TransactionPool(id) => Answers { transaction_pool: Some(id), ..self },
            Answer::ImportQueue(id) => Answers { import_queue: Some(id), ..self },
            Answer::Configuration(config) => Answers { configuration: Some(config), ..self },
            Answer::RelayChainNode(id) => Answers { relay_chain_node: Some(id), ..self },
            Answer::AnnounceValidator(id) => Answers { announce_validator: Some(id), ..self },
            Answer::SharedImportQueue(id) => Answers { shared_import_queue: Some(id), ..self },
            Answer::Network(parts) => Answers { network: Some(parts), ..self },
            Answer::ProposerFactory(id) => Answers { proposer_factory: Some(id), ..self },
            Answer::Consensus(id) => Answers { consensus: Some(id), ..self },
            Answer::SealTask(id) => Answers { seal_task: Some(id), ..self },
        }
    }

    /// Whether what carrying `action` out brings is there.
    pub open spec fn hold(self, action: Action) -> bool {
        match action {
            Action::NewTelemetryWorker { .. } => self.telemetry_worker is Some,
            Action::NewTelemetry { .. } => self.telemetry is Some,
            Action::NewFullParts { .. } => self.full_parts is Some,
            Action::NewTelemetryWorkerHandle { .. } => self.telemetry_worker_handle is Some,
            Action::NewLongestChain { .. } => self.select_chain is Some,
            Action::NewTransactionPool(_) => self.transaction_pool is Some,
            Action::NewImportQueue(_) => self.import_queue is Some,
            Action::PrepareNodeConfig { .. } => self.configuration is Some,
            Action::BuildRelayChainNode { .. } => self.relay_chain_node is Some,
            Action::BuildAnnounceValidator(_) => self.announce_validator is Some,
            Action::ShareImportQueue { .. } => self.shared_import_queue is Some,
            Action::BuildNetwork(_) => self.network is Some,
            Action::NewProposerFactory(_) => self.proposer_factory is Some,
            Action::BuildConsensus(_) | Action::BuildNimbusConsensus(_) => self.consensus is Some,
            Action::NewInstantSeal(_) => self.seal_task is Some,
            Action::SpawnTelemetryWorker { .. } | Action::BuildOffchainWorkers(_)
            | Action::SpawnTasks(_) | Action::StartCollator(_) | Action::StartFullNode(_)
            | Action::SpawnInstantSeal { .. } | Action::StartNetwork { .. } => true,
        }
    }

    /// Whether what the first `done` actions of `plan` bring is there.
    pub open spec fn hold_first(self, plan: Seq<Action>, done: int) -> bool {
        forall|k: int| 0 <= k < done ==> self.hold(#[trigger] plan[k])
    }

    /// Before the first answer, nothing has been brought.
    pub fn new() -> (answers: Answers)
        ensures
            answers == Answers::nothing(),
    {
        Answers {
            telemetry_worker: None,
            telemetry: None,
            full_parts: None,
            telemetry_worker_handle: None,
            select_chain: None,
            transaction_pool: None,
            import_queue: None,
            configuration: None,
            relay_chain_node: None,
            announce_validator: None,
            shared_import_queue: None,
            network: None,
            proposer_factory: None,
            consensus: None,
            seal_task: None,
        }
    }

    /// Keeps what `answer` brings.
    pub fn keep(&mut self, answer: Answer)
        ensures
            *final(self) == old(self).with(answer),
    {
        match answer {
            Answer::Done => {},
            Answer::TelemetryWorker(id) => self.telemetry_worker = Some(id),
            Answer::Telemetry(id) => self.telemetry = Some(id),
            Answer::FullParts(parts) => self.full_parts = Some(parts),
            Answer::TelemetryWorkerHandle(id) => self.telemetry_worker_handle = Some(id),
            Answer::SelectChain(id) => self.select_chain = Some(id),
            Answer::TransactionPool(id) => self.transaction_pool = Some(id),
            Answer::ImportQueue(id) => self.import_queue = Some(id),
            Answer::Configuration(config) => self.configuration = Some(config),
            Answer::RelayChainNode(id) => self.relay_chain_node = Some(id),
            Answer::AnnounceValidator(id) => self.announce_validator = Some(id),
            Answer::SharedImportQueue(id) => self.shared_import_queue = Some(id),
            Answer::Network(parts) => self.network = Some(parts),
            Answer::ProposerFactory(id) => self.proposer_factory = Some(id),
            Answer::Consensus(id) => self.consensus = Some(id),
            Answer::SealTask(id) => self.seal_task = Some(id),
        }
    }
}

/// What a start-up does.
pub trait Procedure: Sized {
    /// What the start-up ends with.
    type Output;

    /// The actions to ask for, in order, where `answers` is what they bring. What is still to
    /// come does not matter to what is due: see [`Procedure::past_stands`].
    spec fn plan(&self, answers: Answers) -> Seq<Action>;

    /// What the start-up ends with when every action has been carried out.
    spec fn output(&self, answers: Answers) -> Self::Output;

    /// The action to ask for once the first `done` have been carried out, if any is left.
    fn action_at(&self, answers: &Answers, done: usize) -> (action: Option<Action>)
        requires
            done <= self.plan(*answers).len(),
            answers.hold_first(self.plan(*answers), done as int),
        ensures
            action == (if done < self.plan(*answers).len() {
                Some(self.plan(*answers)[done as int])
            } else {
                None
            }),
    ;

    /// Gathers the output when every action has been carried out.
    fn gather(&self, answers: &Answers) -> (output: Self::Output)
        requires
            answers.hold_first(self.plan(*answers), self.plan(*answers).len() as int),
        ensures
            output == self.output(*answers),
    ;

    /// No plan is longer than [`MAX_ACTIONS`].
    proof fn plan_is_bounded(&self, answers: Answers)
        ensures
            self.plan(answers).len() <= MAX_ACTIONS,
    ;

    /// An answer changes nothing of the plan up to and with the action that it answers.
    proof fn past_stands(&self, answers: Answers, done: int, answer: Answer)
        requires
            0 <= done < self.plan(answers).len(),
            answers.hold_first(self.plan(answers), done),
            crate::action::brings(self.plan(answers)[done], answer),
        ensures
            done < self.plan(answers.with(answer)).len(),
            forall|k: int|
                0 <= k <= done ==> #[trigger] self.plan(answers.with(answer))[k] == self.plan(
                    answers,
                )[k],
    ;
}

/// The state of a start-up.
#[verifier::ext_equal]
pub struct StartupView<P, E> {
    pub procedure: P,
    /// What has been brought so far.
    pub answers: Answers,
    /// How many actions have been carried out.
    pub done: int,
    /// Why the start-up has failed, if it has.
    pub failure: Option<ServiceErrorView<E>>,
}

impl<P: Procedure, E> StartupView<P, E> {
    /// The start-up that has not asked for anything yet.
    pub open spec fn fresh(procedure: P) -> StartupView<P, E> {
        StartupView { procedure, answers: Answers::nothing(), done: 0, failure: None }
    }

    /// The plan, as far as the answers have settled it.
    pub open spec fn plan(self) -> Seq<Action> {
        self.procedure.plan(self.answers)
    }

    /// The actions that have been carried out and the answers that have come are in step.
    pub open spec fn wf(self) -> bool {
        &&& 0 <= self.done <= self.plan().len()
        &&& self.answers.hold_first(self.plan(), self.done)
    }

    /// The action to carry out next. There is none once the start-up has ended.
    pub open spec fn due(self) -> Option<Action> {
        if self.failure is None && self.done < self.plan().len() {
            Some(self.plan()[self.done])
        } else {
            None
        }
    }

    /// Whether `reply` is one to the action that is due.
    pub open spec fn accepts(self, reply: Reply<E>) -> bool {
        self.due() is Some && crate::action::fits(self.due()->0, reply)
    }

    /// The state after `reply`. A reply that is not one to the action that is due is passed over;
    /// a failure ends the start-up; an answer is kept and the start-up moves on.
    pub open spec fn after(self, reply: Reply<E>) -> StartupView<P, E> {
        if !self.accepts(reply) {
            self
        } else {
            match reply {
                Reply::Given(answer) => StartupView {
                    answers: self.answers.with(answer),
                    done: self.done + 1,
                    ..self
                },
                _ => StartupView { failure: crate::action::failure_of(reply), ..self },
            }
        }
    }

    /// How the start-up has ended, if it has.
    pub open spec fn outcome(self) -> Option<Result<P::Output, ServiceErrorView<E>>> {
        if self.failure is Some {
            Some(Err(self.failure->0))
        } else if self.done == self.plan().len() {
            Some(Ok(self.procedure.output(self.answers)))
        } else {
            None
        }
    }
}

/// A start-up under way.
#[derive(Debug)]
pub struct Startup<P, E> {
    procedure: P,
    answers: Answers,
    done: usize,
    failure: Option<ServiceError<E>>,
}

impl<P, E> View for Startup<P, E> {
    type V = StartupView<P, E>;

    closed spec fn view(&self) -> StartupView<P, E> {
        StartupView {
            procedure: self.procedure,
            answers: self.answers,
            done: self.done as int,
            failure: match self.failure {
                Some(error) => Some(error@),
                None => None,
            },
        }
    }
}

impl<P: Procedure, E> Startup<P, E> {
    /// Sets out on a procedure.
    pub fn new(procedure: P) -> (startup: Startup<P, E>)
        ensures
            startup@ == StartupView::<P, E>::fresh(procedure),
            startup@.wf(),
    {
        Startup { procedure, answers: Answers::new(), done: 0, failure: None }
    }

    /// Turns a procedure down before it has begun.
    pub fn refused(procedure: P, error: ServiceError<E>) -> (startup: Startup<P, E>)
        ensures
            startup@ == (StartupView {
                failure: Some(error@),
                ..StartupView::<P, E>::fresh(procedure)
            }),
            startup@.wf(),
    {
        Startup { procedure, answers: Answers::new(), done: 0, failure: Some(error) }
    }

    /// The action to carry out next, or `None` once the start-up has ended.
    pub fn due(&self) -> (action: Option<Action>)
        requires
            self@.wf(),
        ensures
            action == self@.due(),
    {
        match self.failure {
            Some(_) => None,
            None => self.procedure.action_at(&self.answers, self.done),
        }
    }

    /// Takes the reply to the action that is due, and tells whether it is one. A reply that is not
    /// changes nothing.
    pub fn reply(&mut self, reply: Reply<E>) -> (accepted: bool)
        requires
            old(self)@.wf(),
        ensures
            accepted == old(self)@.accepts(reply),
            final(self)@ == old(self)@.after(reply),
            final(self)@.wf(),
    {
        match self.due() {
            None => false,
            Some(action) => {
                if action.fits(&reply) {
                    match reply.into_result() {
                        Ok(answer) => {
                            proof {
                                self.procedure.plan_is_bounded(self.answers);
                                self.procedure.past_stands(self.answers, self.done as int, answer);
                            }
                            self.answers.keep(answer);
                            self.done = self.done + 1;
                        },
                        Err(error) => {
                            self.failure = Some(error);
                        },
                    }
                    true
                } else {
                    false
                }
            },
        }
    }

    /// How the start-up has ended, or `None` while an action is due.
    pub fn into_outcome(self) -> (outcome: Option<Result<P::Output, ServiceError<E>>>)
        requires
            self@.wf(),
        ensures
            match outcome {
                Some(Ok(output)) => self@.outcome() == Some(
                    Ok::<P::Output, ServiceErrorView<E>>(output),
                ),
                Some(Err(error)) => self@.outcome() == Some(
                    Err::<P::Output, ServiceErrorView<E>>(error@),
                ),
                None => self@.outcome() is None,
            },
    {
        match self.failure {
            Some(error) => Some(Err(error)),
            None => match self.procedure.action_at(&self.answers, self.done) {
                Some(_) => None,
                None => Some(Ok(self.procedure.gather(&self.answers))),
            },
        }
    }
}

} // verus!
