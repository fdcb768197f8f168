use parachain_template_node::action::{
    Action, AnnounceValidatorParams, Answer, CollatorParams, FullNodeParams, ImportQueueParams,
    NetworkImportQueue, NetworkParams, NimbusParams, ProposerParams, Reply, TasksParams,
    TransactionPoolParams,
};
use parachain_template_node::components::{
    AnnounceValidatorId, BackendId, ClientId, ConfigId, ConsensusId, EndpointsId, FullParts,
    ImportQueueId, KeystoreId, NativeExecutorId, NetworkId, NetworkParts, NetworkStarterId, ParaId,
    ParachainNode, ProposerFactoryId, RegistryId, RelayChainNodeId, RuntimeApiId, SelectChainId,
    SharedImportQueueId, SpawnHandle, SystemRpcId, TaskManagerId, TelemetryId,
    TelemetryWorkerHandleId, TelemetryWorkerId, TransactionPoolId,
};
use parachain_template_node::config::{
    Configuration, Role, TelemetryEndpoints, WasmExecutionMethod,
};
use parachain_template_node::consensus::{ConsensusBuilder, ConsensusParams};
use parachain_template_node::error::{RelayChainError, ServiceError};
use parachain_template_node::executor::{ExecutorSettings, NativeExecutor, Runtime, RuntimeApi};
use parachain_template_node::inherents::{ImportInherents, ParachainInherents};
use parachain_template_node::parachain::{start_node_impl, start_parachain_node, StartNode};
use parachain_template_node::rpc::RpcExtensions;
use parachain_template_node::startup::{Startup, MAX_ACTIONS};

type Starting = Startup<StartNode, &'static str>;

fn config(id: u64, role: Role) -> Configuration {
    Configuration {
        id: ConfigId(id),
        role,
        telemetry_endpoints: None,
        wasm_method: WasmExecutionMethod::Interpreted,
        default_heap_pages: None,
        max_runtime_instances: 8,
        prometheus_registry: Some(RegistryId(2)),
        force_authoring: true,
        offchain_worker_enabled: false,
    }
}

fn answer(startup: &mut Starting, action: Action, answer: Answer) {
    assert_eq!(startup.due(), Some(action));
    assert!(startup.reply(Reply::Given(answer)));
}

fn give(startup: &mut Starting, answer: Answer) {
    assert!(startup.reply(Reply::Given(answer)));
}

fn parts() -> FullParts {
    FullParts {
        client: ClientId(20),
        backend: BackendId(21),
        keystore_container: KeystoreId(22),
        task_manager: TaskManagerId(23),
    }
}

fn network() -> NetworkParts {
    NetworkParts {
        network: NetworkId(30),
        system_rpc_tx: SystemRpcId(31),
        network_starter: NetworkStarterId(32),
    }
}

/// Takes a node, prepared as `config(3, role)` and without telemetry, to the point where its
/// tasks have been spawned.
fn up_to_tasks(s: &mut Starting, role: Role) {
    up_to_tasks_for(s, role, Runtime::template());
}

fn up_to_tasks_for(s: &mut Starting, role: Role, runtime: Runtime) {
    answer(
        s,
        Action::PrepareNodeConfig { config: ConfigId(1) },
        Answer::Configuration(config(3, role)),
    );
    answer(
        s,
        Action::NewFullParts {
            config: ConfigId(3),
            telemetry: None,
            runtime_api: runtime.api,
            executor: ExecutorSettings::new(&config(3, role), runtime.executor),
        },
        Answer::FullParts(parts()),
    );
    answer(
        s,
        Action::NewLongestChain { backend: BackendId(21) },
        Answer::SelectChain(SelectChainId(13)),
    );
    answer(
        s,
        Action::NewTransactionPool(TransactionPoolParams {
            options: ConfigId(3),
            is_validator: role == Role::Authority,
            prometheus: Some(RegistryId(2)),
            spawner: SpawnHandle { task_manager: TaskManagerId(23), essential: true },
            client: ClientId(20),
        }),
        Answer::TransactionPool(TransactionPoolId(14)),
    );
    answer(
        s,
        Action::NewImportQueue(ImportQueueParams {
            client: ClientId(20),
            block_import: ClientId(20),
            create_inherent_data_providers: ImportInherents,
            spawner: SpawnHandle { task_manager: TaskManagerId(23), essential: true },
            registry: Some(RegistryId(2)),
        }),
        Answer::ImportQueue(ImportQueueId(15)),
    );
    answer(
        s,
        Action::BuildRelayChainNode { config: ConfigId(7), telemetry_worker_handle: None },
        Answer::RelayChainNode(RelayChainNodeId(16)),
    );
    answer(
        s,
        Action::BuildAnnounceValidator(AnnounceValidatorParams {
            relay_chain_client: RelayChainNodeId(16),
            para_id: ParaId(2000),
            relay_chain_sync_oracle: RelayChainNodeId(16),
            relay_chain_backend: RelayChainNodeId(16),
        }),
        Answer::AnnounceValidator(AnnounceValidatorId(17)),
    );
    answer(
        s,
        Action::ShareImportQueue { import_queue: ImportQueueId(15) },
        Answer::SharedImportQueue(SharedImportQueueId(18)),
    );
    answer(
        s,
        Action::BuildNetwork(NetworkParams {
            config: ConfigId(3),
            client: ClientId(20),
            transaction_pool: TransactionPoolId(14),
            spawn_handle: SpawnHandle { task_manager: TaskManagerId(23), essential: false },
            import_queue: NetworkImportQueue::Shared(SharedImportQueueId(18)),
            on_demand: false,
            block_announce_validator: Some(AnnounceValidatorId(17)),
            warp_sync: false,
        }),
        Answer::Network(network()),
    );
    answer(
        s,
        Action::SpawnTasks(TasksParams {
            config: ConfigId(3),
            client: ClientId(20),
            backend: BackendId(21),
            task_manager: TaskManagerId(23),
            keystore: KeystoreId(22),
            transaction_pool: TransactionPoolId(14),
            rpc_extensions_builder: RpcExtensions {
                client: ClientId(20),
                pool: TransactionPoolId(14),
            },
            network: NetworkId(30),
            system_rpc_tx: SystemRpcId(31),
            telemetry: None,
            on_demand: false,
            remote_blockchain: false,
        }),
        Answer::Done,
    );
}

fn start_network_action() -> Action {
    Action::StartNetwork { network_starter: NetworkStarterId(32) }
}

fn collator_action() -> Action {
    Action::StartCollator(CollatorParams {
        para_id: ParaId(2000),
        block_status: ClientId(20),
        announce_block: NetworkId(30),
        client: ClientId(20),
        task_manager: TaskManagerId(23),
        relay_chain_full_node: RelayChainNodeId(16),
        spawner: SpawnHandle { task_manager: TaskManagerId(23), essential: false },
        parachain_consensus: ConsensusId(41),
        import_queue: SharedImportQueueId(18),
    })
}

fn started(s: Starting) {
    assert_eq!(s.due(), None);
    match s.into_outcome() {
        Some(Ok(node)) => assert_eq!(
            node,
            ParachainNode { task_manager: TaskManagerId(23), client: ClientId(20) }
        ),
        other => panic!("unexpected outcome: {:?}", other),
    }
}

fn failed_with(s: Starting, reason: &'static str) {
    assert_eq!(s.due(), None);
    match s.into_outcome() {
        Some(Err(ServiceError::Service(e))) => assert_eq!(e, reason),
        other => panic!("unexpected outcome: {:?}", other),
    }
}

#[test]
fn a_light_client_is_turned_down() {
    let mut s: Starting =
        start_parachain_node(config(1, Role::Light), config(7, Role::Full), ParaId(2000));
    assert_eq!(s.due(), None);
    assert!(!s.reply(Reply::Given(Answer::Configuration(config(3, Role::Full)))));
    match s.into_outcome() {
        Some(Err(ServiceError::Other(words))) => assert_eq!(words, "Light client not supported!"),
        other => panic!("unexpected outcome: {:?}", other),
    }
}

#[test]
fn an_authority_collates_with_nimbus() {
    let mut s =
        start_parachain_node(config(1, Role::Authority), config(7, Role::Full), ParaId(2000));
    up_to_tasks(&mut s, Role::Authority);
    answer(
        &mut s,
        Action::NewProposerFactory(ProposerParams {
            proof_recording: true,
            spawn_handle: SpawnHandle { task_manager: TaskManagerId(23), essential: false },
            client: ClientId(20),
            transaction_pool: TransactionPoolId(14),
            prometheus: Some(RegistryId(2)),
            telemetry: None,
        }),
        Answer::ProposerFactory(ProposerFactoryId(40)),
    );
    answer(
        &mut s,
        Action::BuildNimbusConsensus(NimbusParams {
            para_id: ParaId(2000),
            proposer_factory: ProposerFactoryId(40),
            block_import: ClientId(20),
            relay_chain_client: RelayChainNodeId(16),
            relay_chain_backend: RelayChainNodeId(16),
            parachain_client: ClientId(20),
            keystore: KeystoreId(22),
            skip_prediction: true,
            create_inherent_data_providers: ParachainInherents {
                relay_chain_client: RelayChainNodeId(16),
                relay_chain_backend: RelayChainNodeId(16),
                para_id: ParaId(2000),
            },
        }),
        Answer::Consensus(ConsensusId(41)),
    );
    answer(&mut s, collator_action(), Answer::Done);
    answer(&mut s, start_network_action(), Answer::Done);
    started(s);
}

#[test]
fn any_other_node_follows_the_chain() {
    let mut s = start_parachain_node(config(1, Role::Full), config(7, Role::Full), ParaId(2000));
    up_to_tasks(&mut s, Role::Full);
    answer(
        &mut s,
        Action::StartFullNode(FullNodeParams {
            client: ClientId(20),
            announce_block: NetworkId(30),
            task_manager: TaskManagerId(23),
            para_id: ParaId(2000),
            relay_chain_full_node: RelayChainNodeId(16),
        }),
        Answer::Done,
    );
    answer(&mut s, start_network_action(), Answer::Done);
    started(s);
}

#[test]
fn a_driver_may_build_the_consensus_itself() {
    let runtime = Runtime {
        api: RuntimeApi::Other(RuntimeApiId(50)),
        executor: NativeExecutor::Other(NativeExecutorId(51)),
    };
    let mut s = start_node_impl(
        runtime,
        config(1, Role::Authority),
        config(7, Role::Full),
        ParaId(2000),
        ConsensusBuilder::Driver,
    );
    up_to_tasks_for(&mut s, Role::Authority, runtime);
    answer(
        &mut s,
        Action::BuildConsensus(ConsensusParams {
            client: ClientId(20),
            prometheus_registry: Some(RegistryId(2)),
            telemetry: None,
            task_manager: TaskManagerId(23),
            relay_chain_node: RelayChainNodeId(16),
            transaction_pool: TransactionPoolId(14),
            sync_oracle: NetworkId(30),
            keystore: KeystoreId(22),
            force_authoring: true,
        }),
        Answer::Consensus(ConsensusId(41)),
    );
    answer(&mut s, collator_action(), Answer::Done);
    answer(&mut s, start_network_action(), Answer::Done);
    started(s);
}

#[test]
fn a_driver_may_fail_to_build_the_consensus() {
    let mut s = start_node_impl(
        Runtime::template(),
        config(1, Role::Authority),
        config(7, Role::Full),
        ParaId(2000),
        ConsensusBuilder::Driver,
    );
    up_to_tasks(&mut s, Role::Authority);
    assert!(s.reply(Reply::Failed("no consensus")));
    failed_with(s, "no consensus");
}

#[test]
fn a_collator_that_does_not_start_keeps_the_network_down() {
    let mut s =
        start_parachain_node(config(1, Role::Authority), config(7, Role::Full), ParaId(2000));
    up_to_tasks(&mut s, Role::Authority);
    give(&mut s, Answer::ProposerFactory(ProposerFactoryId(40)));
    give(&mut s, Answer::Consensus(ConsensusId(41)));
    assert!(s.reply(Reply::Failed("no collator")));
    failed_with(s, "no collator");
}

#[test]
fn a_full_node_that_does_not_start_keeps_the_network_down() {
    let mut s = start_parachain_node(config(1, Role::Full), config(7, Role::Full), ParaId(2000));
    up_to_tasks(&mut s, Role::Full);
    assert!(s.reply(Reply::Failed("no full node")));
    failed_with(s, "no full node");
}

#[test]
fn the_prepared_configuration_decides() {
    // Prepared as a full node, whatever it was before.
    let mut s =
        start_parachain_node(config(1, Role::Authority), config(7, Role::Full), ParaId(2000));
    up_to_tasks(&mut s, Role::Full);
    assert!(matches!(s.due(), Some(Action::StartFullNode(_))));
}

fn up_to_relay_chain(role: Role) -> Starting {
    let mut s = start_parachain_node(config(1, role), config(7, Role::Full), ParaId(2000));
    give(&mut s, Answer::Configuration(config(3, role)));
    give(&mut s, Answer::FullParts(parts()));
    give(&mut s, Answer::SelectChain(SelectChainId(13)));
    give(&mut s, Answer::TransactionPool(TransactionPoolId(14)));
    give(&mut s, Answer::ImportQueue(ImportQueueId(15)));
    s
}

#[test]
fn a_service_failure_of_the_relay_chain_node_is_passed_on() {
    let mut s = up_to_relay_chain(Role::Full);
    assert!(!s.reply(Reply::Failed("not how this fails")));
    assert!(s.reply(Reply::RelayChainFailed(RelayChainError::Sub("no port"))));
    failed_with(s, "no port");
}

#[test]
fn a_failure_of_the_relay_chain_nodes_own_is_worded() {
    let mut s = up_to_relay_chain(Role::Full);
    let own = RelayChainError::Own("authority discovery".to_string());
    assert!(s.reply(Reply::RelayChainFailed(own)));
    match s.into_outcome() {
        Some(Err(ServiceError::Other(words))) => assert_eq!(words, "authority discovery"),
        other => panic!("unexpected outcome: {:?}", other),
    }
}

#[test]
fn a_network_that_cannot_be_built_ends_the_start() {
    let mut s = up_to_relay_chain(Role::Full);
    give(&mut s, Answer::RelayChainNode(RelayChainNodeId(16)));
    give(&mut s, Answer::AnnounceValidator(AnnounceValidatorId(17)));
    give(&mut s, Answer::SharedImportQueue(SharedImportQueueId(18)));
    assert!(s.reply(Reply::Failed("no network")));
    failed_with(s, "no network");
}

#[test]
fn tasks_that_cannot_be_spawned_end_the_start() {
    let mut s = up_to_relay_chain(Role::Full);
    give(&mut s, Answer::RelayChainNode(RelayChainNodeId(16)));
    give(&mut s, Answer::AnnounceValidator(AnnounceValidatorId(17)));
    give(&mut s, Answer::SharedImportQueue(SharedImportQueueId(18)));
    give(&mut s, Answer::Network(network()));
    assert!(s.reply(Reply::Failed("no tasks")));
    failed_with(s, "no tasks");
}

#[test]
fn the_longest_start_takes_as_many_actions_as_any_may() {
    let mut prepared = config(3, Role::Authority);
    prepared.telemetry_endpoints =
        Some(TelemetryEndpoints { id: EndpointsId(5), is_empty: false });
    let mut s =
        start_parachain_node(config(1, Role::Authority), config(7, Role::Full), ParaId(2000));
    let answers = vec![
        Answer::Configuration(prepared),
        Answer::TelemetryWorker(TelemetryWorkerId(10)),
        Answer::Telemetry(TelemetryId(11)),
        Answer::FullParts(parts()),
        Answer::TelemetryWorkerHandle(TelemetryWorkerHandleId(12)),
        Answer::Done,
        Answer::SelectChain(SelectChainId(13)),
        Answer::TransactionPool(TransactionPoolId(14)),
        Answer::ImportQueue(ImportQueueId(15)),
        Answer::RelayChainNode(RelayChainNodeId(16)),
        Answer::AnnounceValidator(AnnounceValidatorId(17)),
        Answer::SharedImportQueue(SharedImportQueueId(18)),
        Answer::Network(network()),
        Answer::Done,
        Answer::ProposerFactory(ProposerFactoryId(40)),
        Answer::Consensus(ConsensusId(41)),
        Answer::Done,
        Answer::Done,
    ];
    assert_eq!(answers.len(), MAX_ACTIONS);
    let mut asked: Vec<Action> = Vec::new();
    for answer in answers {
        asked.push(s.due().unwrap());
        give(&mut s, answer);
    }
    started(s);
    assert_eq!(
        asked[9],
        Action::BuildRelayChainNode {
            config: ConfigId(7),
            telemetry_worker_handle: Some(TelemetryWorkerHandleId(12)),
        }
    );
    match asked[13] {
        Action::SpawnTasks(params) => assert_eq!(params.telemetry, Some(TelemetryId(11))),
        other => panic!("unexpected action: {:?}", other),
    }
    match asked[14] {
        Action::NewProposerFactory(params) => assert_eq!(params.telemetry, Some(TelemetryId(11))),
        other => panic!("unexpected action: {:?}", other),
    }
    // The parachain's number is the same throughout.
    let para_ids: Vec<ParaId> = asked
        .iter()
        .flat_map(|action| match action {
            Action::BuildAnnounceValidator(p) => vec![p.para_id],
            Action::BuildNimbusConsensus(p) => {
                vec![p.para_id, p.create_inherent_data_providers.para_id]
            }
            Action::StartCollator(p) => vec![p.para_id],
            Action::StartFullNode(p) => vec![p.para_id],
            _ => vec![],
        })
        .collect();
    assert_eq!(para_ids, vec![ParaId(2000); 4]);
    // The node stands without the telemetry task, but not without those of pool and import queue.
    let handles: Vec<(usize, bool)> = (0..asked.len())
        .filter_map(|i| match asked[i] {
            Action::SpawnTelemetryWorker { spawn_handle, .. } => Some((i, spawn_handle.essential)),
            Action::NewTransactionPool(p) => Some((i, p.spawner.essential)),
            Action::NewImportQueue(p) => Some((i, p.spawner.essential)),
            Action::BuildNetwork(p) => Some((i, p.spawn_handle.essential)),
            Action::NewProposerFactory(p) => Some((i, p.spawn_handle.essential)),
            Action::StartCollator(p) => Some((i, p.spawner.essential)),
            _ => None,
        })
        .collect();
    assert_eq!(
        handles,
        vec![(5, false), (7, true), (8, true), (12, false), (14, false), (16, false)]
    );
    // The network is started once, and last.
    let starts: Vec<usize> = (0..asked.len())
        .filter(|i| matches!(asked[*i], Action::StartNetwork { .. }))
        .collect();
    assert_eq!(starts, vec![MAX_ACTIONS - 1]);
    // The worker is its task's own once it has been spawned.
    let worker_uses: Vec<usize> = (0..asked.len())
        .filter(|i| match asked[*i] {
            Action::NewTelemetry { worker, .. }
            | Action::NewTelemetryWorkerHandle { worker }
            | Action::SpawnTelemetryWorker { worker, .. } => worker == TelemetryWorkerId(10),
            _ => false,
        })
        .collect();
    assert_eq!(worker_uses, vec![2, 4, 5]);
}
