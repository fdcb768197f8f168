use parachain_template_node::action::{Action, Answer, Reply, TaskName};
use parachain_template_node::components::{
    BackendId, ClientId, ConfigId, EndpointsId, NativeExecutorId, NetworkStarterId, SelectChainId,
    TransactionPoolId,
};
use parachain_template_node::config::{
    Configuration, Role, TelemetryEndpoints, WasmExecutionMethod,
};
use parachain_template_node::error::{RelayChainError, ServiceError};
use parachain_template_node::executor::{
    ExecutorSettings, NativeExecutor, Runtime, RuntimeApi, TemplateRuntimeExecutor,
};
use parachain_template_node::rpc::{FullDeps, RpcExtensions};
use parachain_template_node::startup::Answers;

fn config(telemetry_endpoints: Option<TelemetryEndpoints>) -> Configuration {
    Configuration {
        id: ConfigId(1),
        role: Role::Full,
        telemetry_endpoints,
        wasm_method: WasmExecutionMethod::Interpreted,
        default_heap_pages: None,
        max_runtime_instances: 2,
        prometheus_registry: None,
        force_authoring: false,
        offchain_worker_enabled: false,
    }
}

#[test]
fn only_an_authority_is_an_authority() {
    assert!(Role::Authority.is_authority());
    assert!(!Role::Full.is_authority());
    assert!(!Role::Light.is_authority());
}

#[test]
fn only_a_light_client_is_light() {
    assert!(Role::Light.is_light());
    assert!(!Role::Full.is_light());
    assert!(!Role::Authority.is_light());
}

#[test]
fn telemetry_goes_to_a_list_that_is_not_empty() {
    let list = |is_empty| Some(TelemetryEndpoints { id: EndpointsId(4), is_empty });
    assert_eq!(config(None).telemetry(), None);
    assert_eq!(config(list(true)).telemetry(), None);
    assert_eq!(config(list(false)).telemetry(), Some(EndpointsId(4)));
}

#[test]
fn the_executor_is_set_as_configured() {
    assert_eq!(
        ExecutorSettings::new(&config(None), NativeExecutor::Other(NativeExecutorId(9))),
        ExecutorSettings {
            native: NativeExecutor::Other(NativeExecutorId(9)),
            wasm_method: WasmExecutionMethod::Interpreted,
            default_heap_pages: None,
            max_runtime_instances: 2,
        }
    );
}

#[test]
fn the_template_has_a_runtime_of_its_own() {
    assert_eq!(
        Runtime::template(),
        Runtime {
            api: RuntimeApi::Template,
            executor: NativeExecutor::Template(TemplateRuntimeExecutor),
        }
    );
}

#[test]
fn tasks_are_spelled_out() {
    assert_eq!(TaskName::Telemetry.as_str(), "telemetry");
    assert_eq!(TaskName::InstantSeal.as_str(), "instant-seal");
}

#[test]
fn rpc_extensions_are_served_under_either_policy() {
    let rpc = RpcExtensions { client: ClientId(5), pool: TransactionPoolId(6) };
    for deny_unsafe in [false, true] {
        assert_eq!(
            rpc.full_deps(deny_unsafe),
            FullDeps { client: ClientId(5), pool: TransactionPoolId(6), deny_unsafe }
        );
    }
}

#[test]
fn a_failure_under_the_relay_chain_node_is_the_services() {
    let error: RelayChainError<u8> = RelayChainError::Sub(3);
    assert!(matches!(error.into_service_error(), ServiceError::Service(3)));
}

#[test]
fn a_failure_of_the_relay_chain_node_is_told_in_words() {
    let error: RelayChainError<u8> = RelayChainError::Own("bad spec".to_string());
    match error.into_service_error() {
        ServiceError::Other(words) => assert_eq!(words, "bad spec"),
        other => panic!("unexpected error: {:?}", other),
    }
}

#[test]
fn replies_fit_the_action_they_answer() {
    let action = Action::NewLongestChain { backend: BackendId(1) };
    assert!(action.brings(&Answer::SelectChain(SelectChainId(2))));
    assert!(!action.brings(&Answer::Done));
    assert!(!action.can_fail());
    assert!(!action.fits(&Reply::Failed("no")));
    let relay =
        Action::BuildRelayChainNode { config: ConfigId(1), telemetry_worker_handle: None };
    assert!(relay.fits(&Reply::RelayChainFailed(RelayChainError::Sub("no"))));
    assert!(!relay.fits(&Reply::Failed("no")));
    let start = Action::StartNetwork { network_starter: NetworkStarterId(1) };
    assert!(start.fits::<u8>(&Reply::Given(Answer::Done)));
    assert!(Action::NewTelemetryWorker { buffer_size: 16 }.can_fail());
}

#[test]
fn replies_bring_an_answer_or_a_failure() {
    let given: Reply<u8> = Reply::Given(Answer::Done);
    assert!(matches!(given.into_result(), Ok(Answer::Done)));
    let failed: Reply<u8> = Reply::Failed(4);
    assert!(matches!(failed.into_result(), Err(ServiceError::Service(4))));
    let relay: Reply<u8> = Reply::RelayChainFailed(RelayChainError::Sub(5));
    assert!(matches!(relay.into_result(), Err(ServiceError::Service(5))));
}

#[test]
fn answers_are_kept_under_their_kind() {
    let mut answers = Answers::new();
    assert_eq!(answers.select_chain, None);
    answers.keep(Answer::SelectChain(SelectChainId(8)));
    assert_eq!(answers.select_chain, Some(SelectChainId(8)));
    let mut same = answers;
    same.keep(Answer::Done);
    assert_eq!(same, answers);
    assert_eq!(Answers { select_chain: None, ..answers }, Answers::new());
}
