//! The start-up of a parachain node, next to the relay chain node that it follows.
use crate::action::{
    Action, AnnounceValidatorParams, Answer, CollatorParams, FullNodeParams, NetworkImportQueue,
};
use crate::components::{
    AnnounceValidatorId, ConfigId, ConsensusId, NetworkParts, ParaId, ParachainNode,
    PartialComponents, RelayChainNodeId, SharedImportQueueId, SpawnHandle,
};
use crate::config::{Configuration, Role};
use crate::consensus::{ConsensusBuilder, ConsensusParams};
use crate::error::{ServiceError, ServiceErrorView};
use crate::executor::Runtime;
use crate::partial::{partial_action, partial_count, partial_parts};
use crate::startup::{Answers, Procedure, Startup, StartupView};
use vstd::prelude::*;

verus! {

/// The actions that build a parachain node up to the point where its role matters.
pub open spec fn node_plan(
    polkadot_config: ConfigId,
    id: ParaId,
    config: Configuration,
    answers: Answers,
) -> Seq<Action> {
    let parts = crate::partial::partial_components(config, answers);
    let relay_chain_node = answers.relay_chain_node->0;
    seq![
        Action::BuildRelayChainNode {
            config: polkadot_config,
            telemetry_worker_handle: parts.telemetry_worker_handle,
        },
        Action::BuildAnnounceValidator(
            AnnounceValidatorParams {
                relay_chain_client: relay_chain_node,
                para_id: id,
                relay_chain_sync_oracle: relay_chain_node,
                relay_chain_backend: relay_chain_node,
            },
        ),
        Action::ShareImportQueue { import_queue: parts.import_queue },
        Action::BuildNetwork(
            parts.network(
                config,
                NetworkImportQueue::Shared(answers.shared_import_queue->0),
                Some(answers.announce_validator->0),
            ),
        ),
        Action::SpawnTasks(parts.tasks(config, answers.network->0)),
    ]
}

/// What the consensus of the node is built with.
pub open spec fn consensus_params(config: Configuration, answers: Answers) -> ConsensusParams {
    let parts = crate::partial::partial_components(config, answers);
    ConsensusParams {
        client: parts.client,
        prometheus_registry: config.prometheus_registry,
        telemetry: parts.telemetry,
        task_manager: parts.task_manager,
        relay_chain_node: answers.relay_chain_node->0,
        transaction_pool: parts.transaction_pool,
        sync_oracle: answers.network->0.network,
        keystore: parts.keystore_container,
        force_authoring: config.force_authoring,
    }
}

/// The actions that make the node what its role says: an authority gets a consensus and collates,
/// any other node follows the chain.
pub open spec fn role_plan(
    id: ParaId,
    build_consensus: ConsensusBuilder,
    config: Configuration,
    answers: Answers,
) -> Seq<Action> {
    let parts = crate::partial::partial_components(config, answers);
    let relay_chain_node = answers.relay_chain_node->0;
    let network = answers.network->0;
    if config.role == Role::Authority {
        build_consensus.plan(id, consensus_params(config, answers), answers) + seq![
            Action::StartCollator(
                CollatorParams {
                    para_id: id,
                    block_status: parts.client,
                    announce_block: network.network,
                    client: parts.client,
                    task_manager: parts.task_manager,
                    relay_chain_full_node: relay_chain_node,
                    spawner: SpawnHandle { task_manager: parts.task_manager, essential: false },
                    parachain_consensus: answers.consensus->0,
                    import_queue: answers.shared_import_queue->0,
                },
            ),
        ]
    } else {
        seq![
            Action::StartFullNode(
                FullNodeParams {
                    client: parts.client,
                    announce_block: network.network,
                    task_manager: parts.task_manager,
                    para_id: id,
                    relay_chain_full_node: relay_chain_node,
                },
            ),
        ]
    }
}

/// How many actions [`role_plan`] holds.
pub open spec fn role_len(build_consensus: ConsensusBuilder, config: Configuration) -> int {
    if config.role == Role::Authority {
        build_consensus.len() + 1
    } else {
        1
    }
}

/// The procedure that starts a parachain node.
#[derive(Clone, Copy, Debug, PartialEq, Eq, Structural)]
pub struct StartNode {
    pub runtime: Runtime,
    pub parachain_config: Configuration,
    pub polkadot_config: ConfigId,
    pub id: ParaId,
    pub build_consensus: ConsensusBuilder,
}

impl StartNode {
    /// How the start-up sets out: a light client is turned down before anything is asked for, any
    /// other node has the whole plan before it.
    pub open spec fn at_the_start<E>(self) -> StartupView<StartNode, E> {
        let fresh = StartupView::<StartNode, E>::fresh(self);
        if self.parachain_config.role == Role::Light {
            StartupView {
                failure: Some(ServiceErrorView::Other("Light client not supported!"@)),
                ..fresh
            }
        } else {
            fresh
        }
    }

    /// What carrying the first `done` actions of the plan out has brought.
    pub(crate) proof fn lemma_holds(self, answers: Answers, done: int)
        requires
            0 <= done <= self.plan(answers).len(),
            answers.hold_first(self.plan(answers), done),
        ensures
            done >= 1 ==> answers.configuration is Some,
            ({
                let config = answers.configuration->0;
                let front = 1 + crate::partial::partial_len(config);
                let plan = crate::partial::partial_plan(self.runtime, config, answers);
                &&& answers.hold_first(
                    plan,
                    if done < front {
                        done - 1
                    } else {
                        front - 1
                    },
                )
                &&& done >= front + 1 ==> answers.relay_chain_node is Some
                &&& done >= front + 2 ==> answers.announce_validator is Some
                &&& done >= front + 3 ==> answers.shared_import_queue is Some
                &&& done >= front + 4 ==> answers.network is Some
                &&& config.role == Role::Authority && self.build_consensus
                    == ConsensusBuilder::Nimbus && done >= front + 6
                    ==> answers.proposer_factory is Some
                &&& config.role == Role::Authority && done >= front + 5 + self.build_consensus.len()
                    ==> answers.consensus is Some
            }),
    {
        let config = answers.configuration->0;
        let partial = crate::partial::partial_plan(self.runtime, config, answers);
        let front = 1 + crate::partial::partial_len(config);
        let plan = self.plan(answers);
        assert(forall|k: int| 0 <= k < done ==> answers.hold(#[trigger] plan[k]));
        assert(plan[0] is PrepareNodeConfig);
        assert forall|k: int| 0 <= k < done - 1 && k < front - 1 implies answers.hold(
            #[trigger] partial[k],
        ) by {
            assert(plan[k + 1] == partial[k]);
        }
        assert(plan[front] is BuildRelayChainNode);
        assert(plan[front + 1] is BuildAnnounceValidator);
        assert(plan[front + 2] is ShareImportQueue);
        assert(plan[front + 3] is BuildNetwork);
        if config.role == Role::Authority {
            match self.build_consensus {
                ConsensusBuilder::Driver => {
                    assert(plan[front + 5] is BuildConsensus);
                },
                ConsensusBuilder::Nimbus => {
                    assert(plan[front + 5] is NewProposerFactory);
                    assert(plan[front + 6] is BuildNimbusConsensus);
                },
            }
        }
    }

    /// While the parts that every node is built on are being made, an answer changes nothing of
    /// the plan up to and with the action that it answers.
    proof fn lemma_early_past_stands(self, answers: Answers, done: int, answer: Answer)
        requires
            1 <= done < 1 + crate::partial::partial_len(answers.configuration->0),
            crate::action::brings(self.plan(answers)[done], answer),
        ensures
            done < self.plan(answers.with(answer)).len(),
            forall|k: int|
                0 <= k <= done ==> #[trigger] self.plan(answers.with(answer))[k] == self.plan(
                    answers,
                )[k],
    {
        let config = answers.configuration->0;
        let later = answers.with(answer);
        let partial = crate::partial::partial_plan(self.runtime, config, answers);
        let partial_later = crate::partial::partial_plan(self.runtime, config, later);
        assert(partial.len() == crate::partial::partial_len(config));
        assert(self.plan(answers)[done] == partial[done - 1]);
        assert(!(partial[done - 1] is PrepareNodeConfig));
        assert(later.configuration == answers.configuration);
        crate::partial::lemma_partial_past_stands(self.runtime, config, answers, done - 1, answer);
        assert forall|k: int| 0 <= k <= done implies #[trigger] self.plan(later)[k] == self.plan(
            answers,
        )[k] by {
            if k > 0 {
                assert(partial_later[k - 1] == partial[k - 1]);
            }
        }
    }

    /// Once the parts that every node is built on are there, an answer changes nothing of the
    /// plan up to and with the action that it answers.
    proof fn lemma_late_past_stands(self, answers: Answers, done: int, answer: Answer)
        requires
            1 + crate::partial::partial_len(answers.configuration->0) <= done < self.plan(
                answers,
            ).len(),
            crate::action::brings(self.plan(answers)[done], answer),
        ensures
            self.plan(answers.with(answer)).len() == self.plan(answers).len(),
            forall|k: int|
                0 <= k <= done ==> #[trigger] self.plan(answers.with(answer))[k] == self.plan(
                    answers,
                )[k],
    {
        let config = answers.configuration->0;
        let later = answers.with(answer);
        let front = 1 + crate::partial::partial_len(config);
        let node = node_plan(self.polkadot_config, self.id, config, answers);
        let node_later = node_plan(self.polkadot_config, self.id, config, later);
        let role = role_plan(self.id, self.build_consensus, config, answers);
        let role_later = role_plan(self.id, self.build_consensus, config, later);
        let index = done - front;
        let roles = role_len(self.build_consensus, config);
        assert(self.plan(answers).len() == front + 5 + roles + 1);
        assert(0 <= index < 5 ==> self.plan(answers)[done] == node[index]);
        assert(5 <= index < 5 + roles ==> self.plan(answers)[done] == role[index - 5]);
        assert(later.configuration == answers.configuration);
        assert(crate::partial::partial_plan(self.runtime, config, later)
            == crate::partial::partial_plan(
            self.runtime,
            config,
            answers,
        )) by {
            crate::partial::lemma_partial_settled(self.runtime, config, answers, answer);
        }
        assert(forall|i: int| 0 <= i <= index && i < 5 ==> #[trigger] node_later[i] == node[i]);
        assert(forall|i: int| 0 <= i <= index - 5 && i < roles ==> #[trigger] role_later[i]
            == role[i]);
        assert(index == 5 + roles ==> later == answers);
        assert forall|k: int| 0 <= k <= done implies #[trigger] self.plan(later)[k] == self.plan(
            answers,
        )[k] by {
            if k >= front && k < front + 5 {
                assert(node_later[k - front] == node[k - front]);
            } else if k >= front + 5 && k < front + 5 + roles {
                assert(role_later[k - front - 5] == role[k - front - 5]);
            }
        }
    }

    /// What the consensus of the node is built with, from the parts that the node consists of.
    fn consensus_params(
        config: &Configuration,
        parts: &PartialComponents,
        relay_chain_node: RelayChainNodeId,
        network: &NetworkParts,
    ) -> (params: ConsensusParams)
        ensures
            forall|answers: Answers|
                *parts == crate::partial::partial_components(*config, answers)
                    && answers.relay_chain_node == Some(relay_chain_node) && answers.network == Some(
                    *network,
                ) ==> params == #[trigger] consensus_params(*config, answers),
    {
        ConsensusParams {
            client: parts.client,
            prometheus_registry: config.prometheus_registry,
            telemetry: parts.telemetry,
            task_manager: parts.task_manager,
            relay_chain_node,
            transaction_pool: parts.transaction_pool,
            sync_oracle: network.network,
            keystore: parts.keystore_container,
            force_authoring: config.force_authoring,
        }
    }

    /// The action of [`node_plan`] at `index`.
    fn node_action(
        &self,
        config: &Configuration,
        parts: &PartialComponents,
        answers: &Answers,
        index: usize,
    ) -> (action: Action)
        requires
            index < 5,
            *parts == crate::partial::partial_components(*config, *answers),
            index >= 1 ==> answers.relay_chain_node is Some,
            index >= 2 ==> answers.announce_validator is Some,
            index >= 3 ==> answers.shared_import_queue is Some,
            index >= 4 ==> answers.network is Some,
        ensures
            action == node_plan(self.polkadot_config, self.id, *config, *answers)[index as int],
    {
        if index == 0 {
            Action::BuildRelayChainNode {
                config: self.polkadot_config,
                telemetry_worker_handle: parts.telemetry_worker_handle,
            }
        } else if index == 1 {
            let relay_chain_node: RelayChainNodeId = answers.relay_chain_node.unwrap();
            Action::BuildAnnounceValidator(
                AnnounceValidatorParams {
                    relay_chain_client: relay_chain_node,
                    para_id: self.id,
                    relay_chain_sync_oracle: relay_chain_node,
                    relay_chain_backend: relay_chain_node,
                },
            )
        } else if index == 2 {
            Action::ShareImportQueue { import_queue: parts.import_queue }
        } else if index == 3 {
            let validator: AnnounceValidatorId = answers.announce_validator.unwrap();
            let import_queue = NetworkImportQueue::Shared(answers.shared_import_queue.unwrap());
            Action::BuildNetwork(parts.network_params(config, import_queue, Some(validator)))
        } else {
            Action::SpawnTasks(parts.tasks_params(config, &answers.network.unwrap()))
        }
    }

    /// The action of [`role_plan`] at `index`.
    fn role_action(
        &self,
        config: &Configuration,
        parts: &PartialComponents,
        answers: &Answers,
        index: usize,
    ) -> (action: Action)
        requires
            index < role_len(self.build_consensus, *config),
            *parts == crate::partial::partial_components(*config, *answers),
            answers.relay_chain_node is Some,
            answers.shared_import_queue is Some,
            answers.network is Some,
            config.role == Role::Authority && self.build_consensus == ConsensusBuilder::Nimbus
                && index >= 1 ==> answers.proposer_factory is Some,
            config.role == Role::Authority && index >= self.build_consensus.len()
                ==> answers.consensus is Some,
        ensures
            action == role_plan(self.id, self.build_consensus, *config, *answers)[index as int],
    {
        let relay_chain_node: RelayChainNodeId = answers.relay_chain_node.unwrap();
        let network: NetworkParts = answers.network.unwrap();
        if config.role.is_authority() {
            let params = StartNode::consensus_params(config, parts, relay_chain_node, &network);
            assert(params == consensus_params(*config, *answers));
            if index < self.build_consensus.count() {
                self.build_consensus.action(self.id, &params, answers, index)
            } else {
                let consensus: ConsensusId = answers.consensus.unwrap();
                let import_queue: SharedImportQueueId = answers.shared_import_queue.unwrap();
                Action::StartCollator(
                    CollatorParams {
                        para_id: self.id,
                        block_status: parts.client,
                        announce_block: network.network,
                        client: parts.client,
                        task_manager: parts.task_manager,
                        relay_chain_full_node: relay_chain_node,
                        spawner: SpawnHandle { task_manager: parts.task_manager, essential: false },
                        parachain_consensus: consensus,
                        import_queue,
                    },
                )
            }
        } else {
            Action::StartFullNode(
                FullNodeParams {
                    client: parts.client,
                    announce_block: network.network,
                    task_manager: parts.task_manager,
                    para_id: self.id,
                    relay_chain_full_node: relay_chain_node,
                },
            )
        }
    }
}

impl Procedure for StartNode {
    type Output = ParachainNode;

    /// The configuration is prepared first, and everything after goes by the prepared one. The
    /// network is started last.
    open spec fn plan(&self, answers: Answers) -> Seq<Action> {
        let config = answers.configuration->0;
        seq![Action::PrepareNodeConfig { config: self.parachain_config.id }]
            + crate::partial::partial_plan(self.runtime, config, answers) + node_plan(
            self.polkadot_config,
            self.id,
            config,
            answers,
        ) + role_plan(self.id, self.build_consensus, config, answers) + seq![
            Action::StartNetwork { network_starter: answers.network->0.network_starter },
        ]
    }

    open spec fn output(&self, answers: Answers) -> ParachainNode {
        ParachainNode {
            task_manager: answers.full_parts->0.task_manager,
            client: answers.full_parts->0.client,
        }
    }

    fn action_at(&self, answers: &Answers, done: usize) -> (action: Option<Action>) {
        proof {
            self.lemma_holds(*answers, done as int);
        }
        if done == 0 {
            Some(Action::PrepareNodeConfig { config: self.parachain_config.id })
        } else {
            let config: Configuration = answers.configuration.unwrap();
            let front: usize = 1 + partial_count(&config);
            if done < front {
                Some(partial_action(&self.runtime, &config, answers, done - 1))
            } else {
                proof {
                    crate::partial::lemma_partial_holds(
                        self.runtime,
                        config,
                        *answers,
                        front - 1,
                    );
                }
                let parts = partial_parts(&config, answers);
                let index: usize = done - front;
                let roles: usize = if config.role.is_authority() {
                    self.build_consensus.count() + 1
                } else {
                    1
                };
                if index < 5 {
                    Some(self.node_action(&config, &parts, answers, index))
                } else if index < 5 + roles {
                    Some(self.role_action(&config, &parts, answers, index - 5))
                } else if index == 5 + roles {
                    let network: NetworkParts = answers.network.unwrap();
                    Some(Action::StartNetwork { network_starter: network.network_starter })
                } else {
                    None
                }
            }
        }
    }

    fn gather(&self, answers: &Answers) -> (output: ParachainNode) {
        proof {
            self.lemma_holds(*answers, self.plan(*answers).len() as int);
        }
        let config: Configuration = answers.configuration.unwrap();
        proof {
            crate::partial::lemma_partial_holds(
                self.runtime,
                config,
                *answers,
                crate::partial::partial_len(config),
            );
        }
        let parts = partial_parts(&config, answers);
        ParachainNode { task_manager: parts.task_manager, client: parts.client }
    }

    proof fn plan_is_bounded(&self, answers: Answers) {
    }

    proof fn past_stands(&self, answers: Answers, done: int, answer: Answer) {
        if done == 0 {
        } else if done < 1 + crate::partial::partial_len(answers.configuration->0) {
            self.lemma_early_past_stands(answers, done, answer);
        } else {
            self.lemma_late_past_stands(answers, done, answer);
        }
    }
}

/// Sets out to start a node with the given parachain configuration and relay chain configuration.
/// Light clients are turned down.
///
/// This is the actual implementation, whichever runtime the node is made for and whichever
/// consensus it runs.
pub fn start_node_impl<E>(
    runtime: Runtime,
    parachain_config: Configuration,
    polkadot_config: Configuration,
    id: ParaId,
    build_consensus: ConsensusBuilder,
) -> (startup: Startup<StartNode, E>)
    ensures
        startup@ == (StartNode {
            runtime,
            parachain_config,
            polkadot_config: polkadot_config.id,
            id,
            build_consensus,
        }).at_the_start::<E>(),
        startup@.wf(),
        parachain_config.role == Role::Light <==> startup@.failure is Some,
        startup@.due() == (if parachain_config.role == Role::Light {
            None
        } else {
            Some(Action::PrepareNodeConfig { config: parachain_config.id })
        }),
{
    let procedure = StartNode {
        runtime,
        parachain_config,
        polkadot_config: polkadot_config.id,
        id,
        build_consensus,
    };
    if parachain_config.role.is_light() {
        return Startup::refused(
            procedure,
            ServiceError::Other("Light client not supported!".to_string()),
        );
    }
    Startup::new(procedure)
}

/// Sets out to start a parachain node, which is made for the template's own runtime, and which runs
/// the Nimbus consensus where it is an authority.
pub fn start_parachain_node<E>(
    parachain_config: Configuration,
    polkadot_config: Configuration,
    id: ParaId,
) -> (startup: Startup<StartNode, E>)
    ensures
        startup@ == (StartNode {
            runtime: Runtime::of_template(),
            parachain_config,
            polkadot_config: polkadot_config.id,
            id,
            build_consensus: ConsensusBuilder::Nimbus,
        }).at_the_start::<E>(),
        startup@.wf(),
        parachain_config.role == Role::Light <==> startup@.failure is Some,
        startup@.due() == (if parachain_config.role == Role::Light {
            None
        } else {
            Some(Action::PrepareNodeConfig { config: parachain_config.id })
        }),
{
    start_node_impl(
        Runtime::template(),
        parachain_config,
        polkadot_config,
        id,
        ConsensusBuilder::Nimbus,
    )
}

} // verus!
