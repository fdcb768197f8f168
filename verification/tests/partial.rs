use parachain_template_node::action::{
    Action, Answer, ImportQueueParams, Reply, TaskName, TransactionPoolParams,
};
use parachain_template_node::components::{
    BackendId, ClientId, ConfigId, EndpointsId, FullParts, ImportQueueId, KeystoreId,
    NativeExecutorId, PartialComponents, RegistryId, RuntimeApiId, SelectChainId, SpawnHandle,
    TaskManagerId, TelemetryId, TelemetryWorkerHandleId, TelemetryWorkerId, TransactionPoolId,
};
use parachain_template_node::config::{
    Configuration, Role, TelemetryEndpoints, WasmExecutionMethod,
};
use parachain_template_node::error::ServiceError;
use parachain_template_node::executor::{
    ExecutorSettings, NativeExecutor, Runtime, RuntimeApi, TemplateRuntimeExecutor,
};
use parachain_template_node::inherents::ImportInherents;
use parachain_template_node::partial::{new_partial, NewPartial, TELEMETRY_BUFFER_SIZE};
use parachain_template_node::startup::Startup;

fn config(role: Role, telemetry_endpoints: Option<TelemetryEndpoints>) -> Configuration {
    Configuration {
        id: ConfigId(1),
        role,
        telemetry_endpoints,
        wasm_method: WasmExecutionMethod::Compiled,
        default_heap_pages: Some(64),
        max_runtime_instances: 8,
        prometheus_registry: Some(RegistryId(2)),
        force_authoring: false,
        offchain_worker_enabled: true,
    }
}

fn endpoints(is_empty: bool) -> Option<TelemetryEndpoints> {
    Some(TelemetryEndpoints { id: EndpointsId(3), is_empty })
}

fn parts() -> FullParts {
    FullParts {
        client: ClientId(20),
        backend: BackendId(21),
        keystore_container: KeystoreId(22),
        task_manager: TaskManagerId(23),
    }
}

fn full_parts_action(telemetry: Option<TelemetryId>) -> Action {
    Action::NewFullParts {
        config: ConfigId(1),
        telemetry,
        runtime_api: RuntimeApi::Template,
        executor: ExecutorSettings {
            native: NativeExecutor::Template(TemplateRuntimeExecutor),
            wasm_method: WasmExecutionMethod::Compiled,
            default_heap_pages: Some(64),
            max_runtime_instances: 8,
        },
    }
}

fn pool_action(is_validator: bool) -> Action {
    Action::NewTransactionPool(TransactionPoolParams {
        options: ConfigId(1),
        is_validator,
        prometheus: Some(RegistryId(2)),
        spawner: SpawnHandle { task_manager: TaskManagerId(23), essential: true },
        client: ClientId(20),
    })
}

fn import_queue_action() -> Action {
    Action::NewImportQueue(ImportQueueParams {
        client: ClientId(20),
        block_import: ClientId(20),
        create_inherent_data_providers: ImportInherents,
        spawner: SpawnHandle { task_manager: TaskManagerId(23), essential: true },
        registry: Some(RegistryId(2)),
    })
}

/// Checks that `action` is due, and answers it.
fn answer(startup: &mut Startup<NewPartial, &'static str>, action: Action, answer: Answer) {
    assert_eq!(startup.due(), Some(action));
    assert!(startup.reply(Reply::Given(answer)));
}

#[test]
fn telemetry_is_set_up_around_the_client() {
    let mut s = new_partial(Runtime::template(), &config(Role::Full, endpoints(false)));
    answer(
        &mut s,
        Action::NewTelemetryWorker { buffer_size: 16 },
        Answer::TelemetryWorker(TelemetryWorkerId(10)),
    );
    answer(
        &mut s,
        Action::NewTelemetry { worker: TelemetryWorkerId(10), endpoints: EndpointsId(3) },
        Answer::Telemetry(TelemetryId(11)),
    );
    answer(&mut s, full_parts_action(Some(TelemetryId(11))), Answer::FullParts(parts()));
    answer(
        &mut s,
        Action::NewTelemetryWorkerHandle { worker: TelemetryWorkerId(10) },
        Answer::TelemetryWorkerHandle(TelemetryWorkerHandleId(12)),
    );
    answer(
        &mut s,
        Action::SpawnTelemetryWorker {
            spawn_handle: SpawnHandle { task_manager: TaskManagerId(23), essential: false },
            name: TaskName::Telemetry,
            blocking: false,
            worker: TelemetryWorkerId(10),
        },
        Answer::Done,
    );
    answer(
        &mut s,
        Action::NewLongestChain { backend: BackendId(21) },
        Answer::SelectChain(SelectChainId(13)),
    );
    answer(&mut s, pool_action(false), Answer::TransactionPool(TransactionPoolId(14)));
    answer(&mut s, import_queue_action(), Answer::ImportQueue(ImportQueueId(15)));
    assert_eq!(s.due(), None);
    match s.into_outcome() {
        Some(Ok(components)) => assert_eq!(
            components,
            PartialComponents {
                client: ClientId(20),
                backend: BackendId(21),
                task_manager: TaskManagerId(23),
                keystore_container: KeystoreId(22),
                select_chain: SelectChainId(13),
                import_queue: ImportQueueId(15),
                transaction_pool: TransactionPoolId(14),
                telemetry: Some(TelemetryId(11)),
                telemetry_worker_handle: Some(TelemetryWorkerHandleId(12)),
            }
        ),
        other => panic!("unexpected outcome: {:?}", other),
    }
}

fn without_telemetry(configured: Option<TelemetryEndpoints>) {
    let mut s = new_partial(Runtime::template(), &config(Role::Authority, configured));
    answer(&mut s, full_parts_action(None), Answer::FullParts(parts()));
    answer(
        &mut s,
        Action::NewLongestChain { backend: BackendId(21) },
        Answer::SelectChain(SelectChainId(13)),
    );
    answer(&mut s, pool_action(true), Answer::TransactionPool(TransactionPoolId(14)));
    answer(&mut s, import_queue_action(), Answer::ImportQueue(ImportQueueId(15)));
    match s.into_outcome() {
        Some(Ok(components)) => {
            assert_eq!(components.telemetry, None);
            assert_eq!(components.telemetry_worker_handle, None);
            assert_eq!(components.client, ClientId(20));
        },
        other => panic!("unexpected outcome: {:?}", other),
    }
}

#[test]
fn without_endpoints_there_is_no_telemetry() {
    without_telemetry(None);
}

#[test]
fn an_empty_list_of_endpoints_is_no_list() {
    without_telemetry(endpoints(true));
}

#[test]
fn the_telemetry_channel_holds_sixteen_messages() {
    assert_eq!(TELEMETRY_BUFFER_SIZE, 16);
}

#[test]
fn a_telemetry_worker_that_cannot_be_made_ends_the_start() {
    let mut s = new_partial(Runtime::template(), &config(Role::Full, endpoints(false)));
    assert!(s.reply(Reply::Failed("no transport")));
    assert_eq!(s.due(), None);
    assert!(matches!(s.into_outcome(), Some(Err(ServiceError::Service("no transport")))));
}

#[test]
fn a_client_that_cannot_be_made_ends_the_start() {
    let mut s = new_partial(Runtime::template(), &config(Role::Full, None));
    assert!(s.reply(Reply::Failed("no database")));
    assert!(matches!(s.into_outcome(), Some(Err(ServiceError::Service("no database")))));
}

#[test]
fn an_import_queue_that_cannot_be_made_ends_the_start() {
    let mut s = new_partial(Runtime::template(), &config(Role::Full, None));
    assert!(s.reply(Reply::Given(Answer::FullParts(parts()))));
    assert!(s.reply(Reply::Given(Answer::SelectChain(SelectChainId(13)))));
    assert!(s.reply(Reply::Given(Answer::TransactionPool(TransactionPoolId(14)))));
    assert!(s.reply(Reply::Failed("no queue")));
    assert!(matches!(s.into_outcome(), Some(Err(ServiceError::Service("no queue")))));
}

#[test]
fn a_reply_to_something_else_is_passed_over() {
    let mut s = new_partial(Runtime::template(), &config(Role::Full, None));
    assert!(!s.reply(Reply::Given(Answer::Done)));
    assert!(!s.reply(Reply::Given(Answer::SelectChain(SelectChainId(9)))));
    assert_eq!(s.due(), Some(full_parts_action(None)));
    assert!(s.reply(Reply::Given(Answer::FullParts(parts()))));
    // Making the fork choice rule cannot fail.
    assert!(!s.reply(Reply::Failed("impossible")));
    assert_eq!(s.due(), Some(Action::NewLongestChain { backend: BackendId(21) }));
    assert!(s.into_outcome().is_none());
}

#[test]
fn an_ended_start_takes_no_reply() {
    let mut s = new_partial(Runtime::template(), &config(Role::Full, None));
    assert!(s.reply(Reply::Failed("first")));
    assert!(!s.reply(Reply::Failed("second")));
    assert!(!s.reply(Reply::Given(Answer::FullParts(parts()))));
    assert!(matches!(s.into_outcome(), Some(Err(ServiceError::Service("first")))));
}

#[test]
fn the_client_is_made_for_the_runtime_that_the_caller_chose() {
    let runtime = Runtime {
        api: RuntimeApi::Other(RuntimeApiId(50)),
        executor: NativeExecutor::Other(NativeExecutorId(51)),
    };
    let mut s = new_partial(runtime, &config(Role::Full, None));
    answer(
        &mut s,
        Action::NewFullParts {
            config: ConfigId(1),
            telemetry: None,
            runtime_api: RuntimeApi::Other(RuntimeApiId(50)),
            executor: ExecutorSettings {
                native: NativeExecutor::Other(NativeExecutorId(51)),
                wasm_method: WasmExecutionMethod::Compiled,
                default_heap_pages: Some(64),
                max_runtime_instances: 8,
            },
        },
        Answer::FullParts(parts()),
    );
}

#[test]
fn the_first_failure_is_the_one_that_a_start_ends_with() {
    let mut s = new_partial(Runtime::template(), &config(Role::Full, endpoints(false)));
    // Not one to the action that is due, and so passed over.
    assert!(!s.reply(Reply::Given(Answer::Done)));
    assert!(s.reply(Reply::Given(Answer::TelemetryWorker(TelemetryWorkerId(10)))));
    assert!(!s.reply(Reply::Failed("telemetry does not fail")));
    assert!(s.reply(Reply::Given(Answer::Telemetry(TelemetryId(11)))));
    assert!(s.reply(Reply::Failed("no client")));
    assert!(!s.reply(Reply::Failed("too late")));
    match s.into_outcome() {
        Some(Err(ServiceError::Service(e))) => assert_eq!(e, "no client"),
        other => panic!("unexpected outcome: {:?}", other),
    }
}
