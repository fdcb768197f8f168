//! The start-up of a node that stands alone and seals a block for every transaction.
use crate::action::{
    Action, Answer, InstantSealParams, NetworkImportQueue, OffchainWorkersParams, ProposerParams,
    TaskName,
};
use crate::components::{NetworkParts, PartialComponents, SpawnHandle, TaskManagerId};
use crate::config::{Configuration, Role};
use crate::executor::Runtime;
use crate::inherents::InstantSealInherents;
use crate::partial::{partial_action, partial_count, partial_parts};
use crate::startup::{Answers, Procedure, Startup, StartupView};
use vstd::prelude::*;

verus! {

/// The network of the node. It validates block announcements in no way of its own.
pub open spec fn network_plan(config: Configuration, answers: Answers) -> Seq<Action> {
    let parts = crate::partial::partial_components(config, answers);
    seq![
        Action::BuildNetwork(
            parts.network(config, NetworkImportQueue::Own(parts.import_queue), None),
        ),
    ]
}

/// The off-chain workers, where they are enabled.
pub open spec fn offchain_plan(config: Configuration, answers: Answers) -> Seq<Action> {
    let parts = crate::partial::partial_components(config, answers);
    if config.offchain_worker_enabled {
        seq![
            Action::BuildOffchainWorkers(
                OffchainWorkersParams {
                    config: config.id,
                    spawn_handle: SpawnHandle {
                        task_manager: parts.task_manager,
                        essential: false,
                    },
                    client: parts.client,
                    network: answers.network->0.network,
                },
            ),
        ]
    } else {
        seq![]
    }
}

/// The tasks that every node runs.
pub open spec fn tasks_plan(config: Configuration, answers: Answers) -> Seq<Action> {
    let parts = crate::partial::partial_components(config, answers);
    seq![Action::SpawnTasks(parts.tasks(config, answers.network->0))]
}

/// The task that seals blocks, where the node is an authority.
pub open spec fn seal_plan(config: Configuration, answers: Answers) -> Seq<Action> {
    let parts = crate::partial::partial_components(config, answers);
    if config.role == Role::Authority {
        seq![
            Action::NewProposerFactory(
                ProposerParams {
                    proof_recording: false,
                    spawn_handle: SpawnHandle {
                        task_manager: parts.task_manager,
                        essential: false,
                    },
                    client: parts.client,
                    transaction_pool: parts.transaction_pool,
                    prometheus: config.prometheus_registry,
                    telemetry: parts.telemetry,
                },
            ),
            Action::NewInstantSeal(
                InstantSealParams {
                    block_import: parts.client,
                    env: answers.proposer_factory->0,
                    client: parts.client,
                    pool: parts.transaction_pool,
                    select_chain: parts.select_chain,
                    consensus_data_provider: false,
                    create_inherent_data_providers: InstantSealInherents,
                },
            ),
            Action::SpawnInstantSeal {
                spawn_handle: SpawnHandle { task_manager: parts.task_manager, essential: true },
                name: TaskName::InstantSeal,
                blocking: true,
                task: answers.seal_task->0,
            },
        ]
    } else {
        seq![]
    }
}

/// What follows once the parts that every node is built on are there. The network is started
/// last.
pub open spec fn late_plan(config: Configuration, answers: Answers) -> Seq<Action> {
    network_plan(config, answers) + offchain_plan(config, answers) + tasks_plan(config, answers)
        + seal_plan(config, answers) + seq![
        Action::StartNetwork { network_starter: answers.network->0.network_starter },
    ]
}

/// How many actions [`offchain_plan`] holds.
pub open spec fn offchain_len(config: Configuration) -> int {
    if config.offchain_worker_enabled {
        1
    } else {
        0
    }
}

/// How many actions [`seal_plan`] holds.
pub open spec fn seal_len(config: Configuration) -> int {
    if config.role == Role::Authority {
        3
    } else {
        0
    }
}

/// The procedure that starts an instant seal node, which is made for the template's own runtime.
#[derive(Clone, Copy, Debug, PartialEq, Eq, Structural)]
pub struct StartInstantSealNode {
    pub config: Configuration,
}

impl StartInstantSealNode {
    /// What carrying the first `done` actions of the plan out has brought.
    pub(crate) proof fn lemma_holds(self, answers: Answers, done: int)
        requires
            0 <= done <= self.plan(answers).len(),
            answers.hold_first(self.plan(answers), done),
        ensures
            ({
                let front = crate::partial::partial_len(self.config);
                let seal = front + 2 + offchain_len(self.config);
                let plan = crate::partial::partial_plan(
                    Runtime::of_template(),
                    self.config,
                    answers,
                );
                &&& answers.hold_first(
                    plan,
                    if done < front {
                        done
                    } else {
                        front
                    },
                )
                &&& done >= front + 1 ==> answers.network is Some
                &&& self.config.role == Role::Authority && done >= seal + 1
                    ==> answers.proposer_factory is Some
                &&& self.config.role == Role::Authority && done >= seal + 2
                    ==> answers.seal_task is Some
            }),
    {
        let front = crate::partial::partial_len(self.config);
        let seal = front + 2 + offchain_len(self.config);
        let partial = crate::partial::partial_plan(Runtime::of_template(), self.config, answers);
        let plan = self.plan(answers);
        assert(partial.len() == front);
        assert(forall|k: int| 0 <= k < done ==> answers.hold(#[trigger] plan[k]));
        assert forall|k: int| 0 <= k < done && k < front implies answers.hold(
            #[trigger] partial[k],
        ) by {
            assert(plan[k] == partial[k]);
        }
        assert(plan[front] is BuildNetwork);
        if self.config.role == Role::Authority {
            assert(plan[seal] is NewProposerFactory);
            assert(plan[seal + 1] is NewInstantSeal);
        }
    }

    /// Once the parts that every node is built on are there, an answer changes nothing of what
    /// follows up to and with the action that it answers.
    proof fn lemma_late_past_stands(self, answers: Answers, index: int, answer: Answer)
        requires
            0 <= index < late_plan(self.config, answers).len(),
            crate::action::brings(late_plan(self.config, answers)[index], answer),
        ensures
            late_plan(self.config, answers.with(answer)).len() == late_plan(
                self.config,
                answers,
            ).len(),
            !(answer is TelemetryWorker),
            !(answer is Telemetry),
            !(answer is FullParts),
            forall|k: int|
                0 <= k <= index ==> #[trigger] late_plan(self.config, answers.with(answer))[k]
                    == late_plan(self.config, answers)[k],
    {
    }

    /// The action of [`seal_plan`] at `index`.
    fn seal_action(&self, parts: &PartialComponents, answers: &Answers, index: usize) -> (action:
        Action)
        requires
            self.config.role == Role::Authority,
            index < 3,
            *parts == crate::partial::partial_components(self.config, *answers),
            index >= 1 ==> answers.proposer_factory is Some,
            index >= 2 ==> answers.seal_task is Some,
        ensures
            action == seal_plan(self.config, *answers)[index as int],
    {
        if index == 0 {
            Action::NewProposerFactory(
                ProposerParams {
                    proof_recording: false,
                    spawn_handle: SpawnHandle {
                        task_manager: parts.task_manager,
                        essential: false,
                    },
                    client: parts.client,
                    transaction_pool: parts.transaction_pool,
                    prometheus: self.config.prometheus_registry,
                    telemetry: parts.telemetry,
                },
            )
        } else if index == 1 {
            Action::NewInstantSeal(
                InstantSealParams {
                    block_import: parts.client,
                    env: answers.proposer_factory.unwrap(),
                    client: parts.client,
                    pool: parts.transaction_pool,
                    select_chain: parts.select_chain,
                    consensus_data_provider: false,
                    create_inherent_data_providers: InstantSealInherents,
                },
            )
        } else {
            Action::SpawnInstantSeal {
                spawn_handle: SpawnHandle { task_manager: parts.task_manager, essential: true },
                name: TaskName::InstantSeal,
                blocking: true,
                task: answers.seal_task.unwrap(),
            }
        }
    }
}

impl Procedure for StartInstantSealNode {
    type Output = TaskManagerId;

    open spec fn plan(&self, answers: Answers) -> Seq<Action> {
        crate::partial::partial_plan(Runtime::of_template(), self.config, answers) + late_plan(
            self.config,
            answers,
        )
    }

    open spec fn output(&self, answers: Answers) -> TaskManagerId {
        answers.full_parts->0.task_manager
    }

    fn action_at(&self, answers: &Answers, done: usize) -> (action: Option<Action>) {
        proof {
            self.lemma_holds(*answers, done as int);
        }
        let front: usize = partial_count(&self.config);
        if done < front {
            return Some(partial_action(&Runtime::template(), &self.config, answers, done));
        }
        proof {
            crate::partial::lemma_partial_holds(
                Runtime::of_template(),
                self.config,
                *answers,
                crate::partial::partial_len(self.config),
            );
        }
        let parts = partial_parts(&self.config, answers);
        if done == front {
            let import_queue = NetworkImportQueue::Own(parts.import_queue);
            return Some(
                Action::BuildNetwork(parts.network_params(&self.config, import_queue, None)),
            );
        }
        let network: NetworkParts = answers.network.unwrap();
        let offchain: usize = if self.config.offchain_worker_enabled {
            1
        } else {
            0
        };
        let seals: usize = if self.config.role.is_authority() {
            3
        } else {
            0
        };
        let index: usize = done - front - 1;
        if index < offchain {
            Some(
                Action::BuildOffchainWorkers(
                    OffchainWorkersParams {
                        config: self.config.id,
                        spawn_handle: SpawnHandle {
                            task_manager: parts.task_manager,
                            essential: false,
                        },
                        client: parts.client,
                        network: network.network,
                    },
                ),
            )
        } else if index == offchain {
            Some(Action::SpawnTasks(parts.tasks_params(&self.config, &network)))
        } else if index <= offchain + seals {
            Some(self.seal_action(&parts, answers, index - offchain - 1))
        } else if index == offchain + seals + 1 {
            Some(Action::StartNetwork { network_starter: network.network_starter })
        } else {
            None
        }
    }

    fn gather(&self, answers: &Answers) -> (output: TaskManagerId) {
        proof {
            self.lemma_holds(*answers, self.plan(*answers).len() as int);
            crate::partial::lemma_partial_holds(
                Runtime::of_template(),
                self.config,
                *answers,
                crate::partial::partial_len(self.config),
            );
        }
        partial_parts(&self.config, answers).task_manager
    }

    proof fn plan_is_bounded(&self, answers: Answers) {
    }

    proof fn past_stands(&self, answers: Answers, done: int, answer: Answer) {
        let front = crate::partial::partial_len(self.config);
        let later = answers.with(answer);
        let partial = crate::partial::partial_plan(Runtime::of_template(), self.config, answers);
        let partial_later = crate::partial::partial_plan(
            Runtime::of_template(),
            self.config,
            later,
        );
        let late = late_plan(self.config, answers);
        let late_later = late_plan(self.config, later);
        assert(partial.len() == front);
        assert(partial_later.len() == front);
        if done < front {
            assert(self.plan(answers)[done] == partial[done]);
            crate::partial::lemma_partial_past_stands(
                Runtime::of_template(),
                self.config,
                answers,
                done,
                answer,
            );
            assert forall|k: int| 0 <= k <= done implies #[trigger] self.plan(later)[k]
                == self.plan(answers)[k] by {
                assert(partial_later[k] == partial[k]);
            }
        } else {
            assert(self.plan(answers)[done] == late[done - front]);
            self.lemma_late_past_stands(answers, done - front, answer);
            crate::partial::lemma_partial_settled(
                Runtime::of_template(),
                self.config,
                answers,
                answer,
            );
            assert forall|k: int| 0 <= k <= done implies #[trigger] self.plan(later)[k]
                == self.plan(answers)[k] by {
                if k >= front {
                    assert(late_later[k - front] == late[k - front]);
                }
            }
        }
    }
}

/// Sets out to start a node that stands alone, and that seals blocks where it is an authority.
pub fn start_instant_seal_node<E>(config: Configuration) -> (startup: Startup<
    StartInstantSealNode,
    E,
>)
    ensures
        startup@ == StartupView::<StartInstantSealNode, E>::fresh(
            (StartInstantSealNode { config }),
        ),
        startup@.wf(),
{
    Startup::new(StartInstantSealNode { config })
}

} // verus!
