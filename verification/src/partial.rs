//! The parts that every kind of node is built on.
use crate::action::{Action, Answer, ImportQueueParams, TaskName, TransactionPoolParams};
use crate::components::{
    FullParts, ImportQueueId, PartialComponents, SelectChainId, SpawnHandle, TelemetryId,
    TelemetryWorkerHandleId, TransactionPoolId,
};
use crate::config::{Configuration, Role};
use crate::executor::{ExecutorSettings, Runtime};
use crate::inherents::ImportInherents;
use crate::startup::{Answers, Procedure, Startup, StartupView};
use vstd::prelude::*;

verus! {

/// How many messages the channel of a telemetry worker holds.
pub const TELEMETRY_BUFFER_SIZE: usize = 16;

/// The telemetry instance, where there is an endpoint to send telemetry to.
pub open spec fn telemetry_of(config: Configuration, answers: Answers) -> Option<TelemetryId> {
    if config.telemetry_targets() is Some {
        answers.telemetry
    } else {
        None
    }
}

/// The handle to the telemetry worker, where there is an endpoint to send telemetry to.
pub open spec fn telemetry_worker_handle_of(
    config: Configuration,
    answers: Answers,
) -> Option<TelemetryWorkerHandleId> {
    if config.telemetry_targets() is Some {
        answers.telemetry_worker_handle
    } else {
        None
    }
}

/// Telemetry comes first, so that the client can report to it from the start.
pub open spec fn telemetry_plan(config: Configuration, answers: Answers) -> Seq<Action> {
    match config.telemetry_targets() {
        Some(endpoints) => seq![
            Action::NewTelemetryWorker { buffer_size: TELEMETRY_BUFFER_SIZE },
            Action::NewTelemetry { worker: answers.telemetry_worker->0, endpoints },
        ],
        None => seq![],
    }
}

/// The client, with the backend, the keystore and the task manager that come with it.
pub open spec fn client_plan(
    runtime: Runtime,
    config: Configuration,
    answers: Answers,
) -> Seq<Action> {
    seq![
        Action::NewFullParts {
            config: config.id,
            telemetry: telemetry_of(config, answers),
            runtime_api: runtime.api,
            executor: ExecutorSettings::of(config, runtime.executor),
        },
    ]
}

/// The telemetry worker becomes a task as soon as there is a task manager. Its handle is taken
/// before, since the task owns the worker. The task is not essential: a node goes on without
/// telemetry.
pub open spec fn telemetry_task_plan(config: Configuration, answers: Answers) -> Seq<Action> {
    if config.telemetry_targets() is Some {
        seq![
            Action::NewTelemetryWorkerHandle { worker: answers.telemetry_worker->0 },
            Action::SpawnTelemetryWorker {
                spawn_handle: SpawnHandle {
                    task_manager: answers.full_parts->0.task_manager,
                    essential: false,
                },
                name: TaskName::Telemetry,
                blocking: false,
                worker: answers.telemetry_worker->0,
            },
        ]
    } else {
        seq![]
    }
}

/// The fork choice rule, the transaction pool and the import queue, all on the one client.
pub open spec fn chain_plan(config: Configuration, answers: Answers) -> Seq<Action> {
    let parts = answers.full_parts->0;
    seq![
        Action::NewLongestChain { backend: parts.backend },
        Action::NewTransactionPool(
            TransactionPoolParams {
                options: config.id,
                is_validator: config.role == Role::Authority,
                prometheus: config.prometheus_registry,
                spawner: SpawnHandle { task_manager: parts.task_manager, essential: true },
                client: parts.client,
            },
        ),
        Action::NewImportQueue(
            ImportQueueParams {
                client: parts.client,
                block_import: parts.client,
                create_inherent_data_providers: ImportInherents,
                spawner: SpawnHandle { task_manager: parts.task_manager, essential: true },
                registry: config.prometheus_registry,
            },
        ),
    ]
}

/// The actions that make the parts that every kind of node is built on.
pub open spec fn partial_plan(
    runtime: Runtime,
    config: Configuration,
    answers: Answers,
) -> Seq<Action> {
    telemetry_plan(config, answers) + client_plan(runtime, config, answers) + telemetry_task_plan(
        config,
        answers,
    ) + chain_plan(config, answers)
}

/// How many actions [`partial_plan`] holds.
pub open spec fn partial_len(config: Configuration) -> int {
    if config.telemetry_targets() is Some {
        8
    } else {
        4
    }
}

/// The parts that carrying [`partial_plan`] out brings.
pub open spec fn partial_components(config: Configuration, answers: Answers) -> PartialComponents {
    PartialComponents {
        client: answers.full_parts->0.client,
        backend: answers.full_parts->0.backend,
        task_manager: answers.full_parts->0.task_manager,
        keystore_container: answers.full_parts->0.keystore_container,
        select_chain: answers.select_chain->0,
        import_queue: answers.import_queue->0,
        transaction_pool: answers.transaction_pool->0,
        telemetry: telemetry_of(config, answers),
        telemetry_worker_handle: telemetry_worker_handle_of(config, answers),
    }
}

/// What carrying the first `done` actions of [`partial_plan`] out has brought.
pub(crate) proof fn lemma_partial_holds(
    runtime: Runtime,
    config: Configuration,
    answers: Answers,
    done: int,
)
    requires
        0 <= done <= partial_len(config),
        answers.hold_first(partial_plan(runtime, config, answers), done),
    ensures
        config.telemetry_targets() is Some ==> {
            &&& done >= 1 ==> answers.telemetry_worker is Some
            &&& done >= 2 ==> answers.telemetry is Some
            &&& done >= 3 ==> answers.full_parts is Some
            &&& done >= 4 ==> answers.telemetry_worker_handle is Some
            &&& done >= 6 ==> answers.select_chain is Some
            &&& done >= 7 ==> answers.transaction_pool is Some
            &&& done >= 8 ==> answers.import_queue is Some
        },
        config.telemetry_targets() is None ==> {
            &&& done >= 1 ==> answers.full_parts is Some
            &&& done >= 2 ==> answers.select_chain is Some
            &&& done >= 3 ==> answers.transaction_pool is Some
            &&& done >= 4 ==> answers.import_queue is Some
        },
{
    let plan = partial_plan(runtime, config, answers);
    assert(plan.len() == partial_len(config));
    assert(forall|k: int| 0 <= k < done ==> answers.hold(#[trigger] plan[k]));
    if config.telemetry_targets() is Some {
        assert(plan[0] is NewTelemetryWorker);
        assert(plan[1] is NewTelemetry);
        assert(plan[2] is NewFullParts);
        assert(plan[3] is NewTelemetryWorkerHandle);
        assert(plan[5] is NewLongestChain);
        assert(plan[6] is NewTransactionPool);
        assert(plan[7] is NewImportQueue);
    } else {
        assert(plan[0] is NewFullParts);
        assert(plan[1] is NewLongestChain);
        assert(plan[2] is NewTransactionPool);
        assert(plan[3] is NewImportQueue);
    }
}

/// An answer changes nothing of [`partial_plan`] up to and with the action that it answers.
pub(crate) proof fn lemma_partial_past_stands(
    runtime: Runtime,
    config: Configuration,
    answers: Answers,
    done: int,
    answer: Answer,
)
    requires
        0 <= done < partial_len(config),
        crate::action::brings(partial_plan(runtime, config, answers)[done], answer),
    ensures
        forall|k: int|
            0 <= k <= done ==> #[trigger] partial_plan(runtime, config, answers.with(answer))[k]
                == partial_plan(runtime, config, answers)[k],
{
}

/// Answers that [`partial_plan`] does not ask for change nothing of it.
pub(crate) proof fn lemma_partial_settled(
    runtime: Runtime,
    config: Configuration,
    answers: Answers,
    answer: Answer,
)
    requires
        !(answer is TelemetryWorker),
        !(answer is Telemetry),
        !(answer is FullParts),
    ensures
        partial_plan(runtime, config, answers.with(answer)) == partial_plan(
            runtime,
            config,
            answers,
        ),
{
}

/// The action of [`partial_plan`] to ask for once the first `done` have been carried out.
pub(crate) fn partial_action(
    runtime: &Runtime,
    config: &Configuration,
    answers: &Answers,
    done: usize,
) -> (action: Action)
    requires
        done < partial_len(*config),
        answers.hold_first(partial_plan(*runtime, *config, *answers), done as int),
    ensures
        action == partial_plan(*runtime, *config, *answers)[done as int],
{
    proof {
        lemma_partial_holds(*runtime, *config, *answers, done as int);
    }
    match config.telemetry() {
        Some(endpoints) => {
            if done == 0 {
                Action::NewTelemetryWorker { buffer_size: TELEMETRY_BUFFER_SIZE }
            } else if done == 1 {
                Action::NewTelemetry { worker: answers.telemetry_worker.unwrap(), endpoints }
            } else if done == 2 {
                Action::NewFullParts {
                    config: config.id,
                    telemetry: answers.telemetry,
                    runtime_api: runtime.api,
                    executor: ExecutorSettings::new(config, runtime.executor),
                }
            } else if done == 3 {
                Action::NewTelemetryWorkerHandle { worker: answers.telemetry_worker.unwrap() }
            } else if done == 4 {
                Action::SpawnTelemetryWorker {
                    spawn_handle: SpawnHandle {
                        task_manager: answers.full_parts.unwrap().task_manager,
                        essential: false,
                    },
                    name: TaskName::Telemetry,
                    blocking: false,
                    worker: answers.telemetry_worker.unwrap(),
                }
            } else {
                chain_action(config, &answers.full_parts.unwrap(), done - 5)
            }
        },
        None => {
            if done == 0 {
                Action::NewFullParts {
                    config: config.id,
                    telemetry: None,
                    runtime_api: runtime.api,
                    executor: ExecutorSettings::new(config, runtime.executor),
                }
            } else {
                chain_action(config, &answers.full_parts.unwrap(), done - 1)
            }
        },
    }
}

/// The action of [`chain_plan`] at `index`, on the client's parts.
fn chain_action(config: &Configuration, parts: &FullParts, index: usize) -> (action: Action)
    requires
        index < 3,
    ensures
        forall|answers: Answers|
            answers.full_parts == Some(*parts) ==> action == #[trigger] chain_plan(
                *config,
                answers,
            )[index as int],
{
    if index == 0 {
        Action::NewLongestChain { backend: parts.backend }
    } else if index == 1 {
        Action::NewTransactionPool(
            TransactionPoolParams {
                options: config.id,
                is_validator: config.role.is_authority(),
                prometheus: config.prometheus_registry,
                spawner: SpawnHandle { task_manager: parts.task_manager, essential: true },
                client: parts.client,
            },
        )
    } else {
        Action::NewImportQueue(
            ImportQueueParams {
                client: parts.client,
                block_import: parts.client,
                create_inherent_data_providers: ImportInherents,
                spawner: SpawnHandle { task_manager: parts.task_manager, essential: true },
                registry: config.prometheus_registry,
            },
        )
    }
}

/// How many actions [`partial_plan`] holds.
pub(crate) fn partial_count(config: &Configuration) -> (count: usize)
    ensures
        count == partial_len(*config),
{
    if config.telemetry().is_some() {
        8
    } else {
        4
    }
}

/// The parts that carrying [`partial_plan`] out has brought.
pub(crate) fn partial_parts(config: &Configuration, answers: &Answers) -> (parts: PartialComponents)
    requires
        answers.full_parts is Some,
        answers.select_chain is Some,
        answers.import_queue is Some,
        answers.transaction_pool is Some,
    ensures
        parts == partial_components(*config, *answers),
{
    let parts: FullParts = answers.full_parts.unwrap();
    let select_chain: SelectChainId = answers.select_chain.unwrap();
    let import_queue: ImportQueueId = answers.import_queue.unwrap();
    let transaction_pool: TransactionPoolId = answers.transaction_pool.unwrap();
    let with_telemetry = config.telemetry().is_some();
    PartialComponents {
        client: parts.client,
        backend: parts.backend,
        task_manager: parts.task_manager,
        keystore_container: parts.keystore_container,
        select_chain,
        import_queue,
        transaction_pool,
        telemetry: if with_telemetry {
            answers.telemetry
        } else {
            None
        },
        telemetry_worker_handle: if with_telemetry {
            answers.telemetry_worker_handle
        } else {
            None
        },
    }
}

/// The procedure that makes the parts that every kind of node is built on.
#[derive(Clone, Copy, Debug, PartialEq, Eq, Structural)]
pub struct NewPartial {
    pub runtime: Runtime,
    pub config: Configuration,
}

impl Procedure for NewPartial {
    type Output = PartialComponents;

    open spec fn plan(&self, answers: Answers) -> Seq<Action> {
        partial_plan(self.runtime, self.config, answers)
    }

    open spec fn output(&self, answers: Answers) -> PartialComponents {
        partial_components(self.config, answers)
    }

    fn action_at(&self, answers: &Answers, done: usize) -> (action: Option<Action>) {
        if done < partial_count(&self.config) {
            Some(partial_action(&self.runtime, &self.config, answers, done))
        } else {
            None
        }
    }

    fn gather(&self, answers: &Answers) -> (output: PartialComponents) {
        proof {
            lemma_partial_holds(
                self.runtime,
                self.config,
                *answers,
                partial_len(self.config),
            );
        }
        partial_parts(&self.config, answers)
    }

    proof fn plan_is_bounded(&self, answers: Answers) {
    }

    proof fn past_stands(&self, answers: Answers, done: int, answer: Answer) {
        lemma_partial_past_stands(self.runtime, self.config, answers, done, answer);
    }
}

/// Sets out to make the parts that every kind of node is built on, without starting a node. The
/// client is made for the given runtime.
///
/// Use this where only those parts are needed, say to perform chain operations.
pub fn new_partial<E>(runtime: Runtime, config: &Configuration) -> (startup: Startup<NewPartial, E>)
    ensures
        startup@ == StartupView::<NewPartial, E>::fresh(
            (NewPartial { runtime, config: *config }),
        ),
        startup@.wf(),
{
    Startup::new(NewPartial { runtime, config: *config })
}

} // verus!
