use parachain_template_node::action::{
    Action, Answer, InstantSealParams, NetworkImportQueue, NetworkParams, OffchainWorkersParams,
    ProposerParams, Reply, TaskName, TasksParams,
};
use parachain_template_node::components::{
    BackendId, ClientId, ConfigId, FullParts, ImportQueueId, KeystoreId, NetworkId, NetworkParts,
    NetworkStarterId, ProposerFactoryId, SealTaskId, SelectChainId, SpawnHandle, SystemRpcId,
    TaskManagerId, TransactionPoolId,
};
use parachain_template_node::config::{Configuration, Role, WasmExecutionMethod};
use parachain_template_node::error::ServiceError;
use parachain_template_node::executor::{NativeExecutor, RuntimeApi, TemplateRuntimeExecutor};
use parachain_template_node::inherents::InstantSealInherents;
use parachain_template_node::instant_seal::{start_instant_seal_node, StartInstantSealNode};
use parachain_template_node::rpc::RpcExtensions;
use parachain_template_node::startup::Startup;

type Starting = Startup<StartInstantSealNode, &'static str>;

fn config(role: Role, offchain_worker_enabled: bool) -> Configuration {
    Configuration {
        id: ConfigId(1),
        role,
        telemetry_endpoints: None,
        wasm_method: WasmExecutionMethod::Compiled,
        default_heap_pages: None,
        max_runtime_instances: 8,
        prometheus_registry: None,
        force_authoring: false,
        offchain_worker_enabled,
    }
}

fn answer(startup: &mut Starting, action: Action, answer: Answer) {
    assert_eq!(startup.due(), Some(action));
    assert!(startup.reply(Reply::Given(answer)));
}

fn give(startup: &mut Starting, answer: Answer) {
    assert!(startup.reply(Reply::Given(answer)));
}

fn up_to_network(s: &mut Starting) {
    match s.due() {
        Some(Action::NewFullParts { runtime_api, executor, .. }) => {
            assert_eq!(runtime_api, RuntimeApi::Template);
            assert_eq!(executor.native, NativeExecutor::Template(TemplateRuntimeExecutor));
        }
        other => panic!("unexpected action: {:?}", other),
    }
    give(
        s,
        Answer::FullParts(FullParts {
            client: ClientId(20),
            backend: BackendId(21),
            keystore_container: KeystoreId(22),
            task_manager: TaskManagerId(23),
        }),
    );
    assert!(matches!(s.due(), Some(Action::NewLongestChain { .. })));
    give(s, Answer::SelectChain(SelectChainId(13)));
    assert!(matches!(s.due(), Some(Action::NewTransactionPool(_))));
    give(s, Answer::TransactionPool(TransactionPoolId(14)));
    assert!(matches!(s.due(), Some(Action::NewImportQueue(_))));
    give(s, Answer::ImportQueue(ImportQueueId(15)));
}

fn network_action() -> Action {
    Action::BuildNetwork(NetworkParams {
        config: ConfigId(1),
        client: ClientId(20),
        transaction_pool: TransactionPoolId(14),
        spawn_handle: SpawnHandle { task_manager: TaskManagerId(23), essential: false },
        import_queue: NetworkImportQueue::Own(ImportQueueId(15)),
        on_demand: false,
        block_announce_validator: None,
        warp_sync: false,
    })
}

fn network_answer() -> Answer {
    Answer::Network(NetworkParts {
        network: NetworkId(30),
        system_rpc_tx: SystemRpcId(31),
        network_starter: NetworkStarterId(32),
    })
}

fn tasks_action() -> Action {
    Action::SpawnTasks(TasksParams {
        config: ConfigId(1),
        client: ClientId(20),
        backend: BackendId(21),
        task_manager: TaskManagerId(23),
        keystore: KeystoreId(22),
        transaction_pool: TransactionPoolId(14),
        rpc_extensions_builder: RpcExtensions { client: ClientId(20), pool: TransactionPoolId(14) },
        network: NetworkId(30),
        system_rpc_tx: SystemRpcId(31),
        telemetry: None,
        on_demand: false,
        remote_blockchain: false,
    })
}

fn start_network_action() -> Action {
    Action::StartNetwork { network_starter: NetworkStarterId(32) }
}

fn started(s: Starting) {
    assert_eq!(s.due(), None);
    match s.into_outcome() {
        Some(Ok(task_manager)) => assert_eq!(task_manager, TaskManagerId(23)),
        other => panic!("unexpected outcome: {:?}", other),
    }
}

#[test]
fn an_authority_that_stands_alone_seals() {
    let mut s = start_instant_seal_node(config(Role::Authority, true));
    up_to_network(&mut s);
    answer(&mut s, network_action(), network_answer());
    answer(
        &mut s,
        Action::BuildOffchainWorkers(OffchainWorkersParams {
            config: ConfigId(1),
            spawn_handle: SpawnHandle { task_manager: TaskManagerId(23), essential: false },
            client: ClientId(20),
            network: NetworkId(30),
        }),
        Answer::Done,
    );
    answer(&mut s, tasks_action(), Answer::Done);
    answer(
        &mut s,
        Action::NewProposerFactory(ProposerParams {
            proof_recording: false,
            spawn_handle: SpawnHandle { task_manager: TaskManagerId(23), essential: false },
            client: ClientId(20),
            transaction_pool: TransactionPoolId(14),
            prometheus: None,
            telemetry: None,
        }),
        Answer::ProposerFactory(ProposerFactoryId(40)),
    );
    answer(
        &mut s,
        Action::NewInstantSeal(InstantSealParams {
            block_import: ClientId(20),
            env: ProposerFactoryId(40),
            client: ClientId(20),
            pool: TransactionPoolId(14),
            select_chain: SelectChainId(13),
            consensus_data_provider: false,
            create_inherent_data_providers: InstantSealInherents,
        }),
        Answer::SealTask(SealTaskId(41)),
    );
    answer(
        &mut s,
        Action::SpawnInstantSeal {
            spawn_handle: SpawnHandle { task_manager: TaskManagerId(23), essential: true },
            name: TaskName::InstantSeal,
            blocking: true,
            task: SealTaskId(41),
        },
        Answer::Done,
    );
    answer(&mut s, start_network_action(), Answer::Done);
    started(s);
}

#[test]
fn a_node_without_authority_does_not_seal() {
    let mut s = start_instant_seal_node(config(Role::Full, false));
    up_to_network(&mut s);
    answer(&mut s, network_action(), network_answer());
    answer(&mut s, tasks_action(), Answer::Done);
    answer(&mut s, start_network_action(), Answer::Done);
    started(s);
}

#[test]
fn a_light_client_that_stands_alone_is_not_turned_down() {
    let mut s = start_instant_seal_node(config(Role::Light, true));
    up_to_network(&mut s);
    answer(&mut s, network_action(), network_answer());
    assert!(matches!(s.due(), Some(Action::BuildOffchainWorkers(_))));
    give(&mut s, Answer::Done);
    answer(&mut s, tasks_action(), Answer::Done);
    answer(&mut s, start_network_action(), Answer::Done);
    started(s);
}

#[test]
fn a_failure_ends_the_start_of_a_node_that_stands_alone() {
    let mut s = start_instant_seal_node(config(Role::Authority, false));
    up_to_network(&mut s);
    give(&mut s, network_answer());
    assert!(s.reply(Reply::Failed("no tasks")));
    assert_eq!(s.due(), None);
    assert!(matches!(s.into_outcome(), Some(Err(ServiceError::Service("no tasks")))));
}
