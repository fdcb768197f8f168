//! What the values that start-ups are put together from are, whatever they are made of.
use crate::action::{Action, NetworkImportQueue, TaskName};
use crate::components::{
    AnnounceValidatorId, NetworkParts, ParaId, PartialComponents, ProposerFactoryId,
};
use crate::config::Configuration;
use crate::consensus::{ConsensusBuilder, ConsensusParams};
use crate::error::{RelayChainError, ServiceErrorView, relay_chain_failure};
use crate::executor::{
    ExecutorSettings, NativeExecutor, Runtime, RuntimeApi, TemplateRuntimeExecutor,
};
use crate::inherents::{InherentsError, MockValidationData};
use crate::startup::Answers;
use vstd::prelude::*;

verus! {

/// Telemetry is sent to the configured list of endpoints, and only where that is not empty. No
/// other setting has a say in it.
pub proof fn law_telemetry_goes_to_a_list_with_endpoints(config: Configuration)
    ensures
        config.telemetry_endpoints is None ==> config.telemetry_targets() is None,
        config.telemetry_endpoints matches Some(list) ==> {
            &&& list.is_empty ==> config.telemetry_targets() is None
            &&& !list.is_empty ==> config.telemetry_targets() == Some(list.id)
        },
{
}

/// Two configurations that name the same endpoints send telemetry to the same.
pub proof fn law_telemetry_rests_on_the_endpoints_alone(one: Configuration, other: Configuration)
    requires
        one.telemetry_endpoints == other.telemetry_endpoints,
    ensures
        one.telemetry_targets() == other.telemetry_targets(),
{
}

/// An executor has the native side that it is given, and is otherwise set as configured.
pub proof fn law_executor_is_set_as_configured(config: Configuration, native: NativeExecutor)
    ensures
        ({
            let settings = ExecutorSettings::of(config, native);
            &&& settings.native == native
            &&& settings.wasm_method == config.wasm_method
            &&& settings.default_heap_pages == config.default_heap_pages
            &&& settings.max_runtime_instances == config.max_runtime_instances
        }),
{
}

/// The template's runtime is called through the template's API, and run by the template's executor.
pub proof fn law_template_is_its_own_runtime()
    ensures
        Runtime::of_template().api == RuntimeApi::Template,
        Runtime::of_template().executor == NativeExecutor::Template(TemplateRuntimeExecutor),
{
}

/// The relay chain that a node that stands alone claims to follow never moves.
pub proof fn law_mocked_relay_chain_never_moves()
    ensures
        MockValidationData::still().current_para_block == 0,
        MockValidationData::still().relay_offset == 0,
        MockValidationData::still().relay_blocks_per_para_block == 0,
{
}

/// Tasks and errors go by these words.
pub proof fn law_words_are_as_written()
    ensures
        TaskName::Telemetry.spelled() == "telemetry"@,
        TaskName::InstantSeal.spelled() == "instant-seal"@,
        InherentsError::NoParachainInherent.worded() == "Failed to create parachain inherent"@,
{
}

/// A failure of the service under the relay chain node is the start-up's failure as it came; one of
/// the relay chain node's own is told in its own words.
pub proof fn law_relay_chain_failure_keeps_its_report<E>(error: RelayChainError<E>)
    ensures
        error matches RelayChainError::Sub(e) ==> relay_chain_failure(error)
            == ServiceErrorView::Service(e),
        error matches RelayChainError::Own(words) ==> relay_chain_failure(error)
            == ServiceErrorView::<E>::Other(words@),
{
}

/// A network is made with the node's own client and pool and with the queue and the validator that
/// it is given. No node serves a light client or offers warp sync.
pub proof fn law_network_takes_what_it_is_given(
    parts: PartialComponents,
    config: Configuration,
    import_queue: NetworkImportQueue,
    block_announce_validator: Option<AnnounceValidatorId>,
)
    ensures
        ({
            let params = parts.network(config, import_queue, block_announce_validator);
            &&& params.config == config.id
            &&& params.client == parts.client
            &&& params.transaction_pool == parts.transaction_pool
            &&& params.spawn_handle.task_manager == parts.task_manager
            &&& !params.spawn_handle.essential
            &&& params.import_queue == import_queue
            &&& params.block_announce_validator == block_announce_validator
            &&& !params.on_demand
            &&& !params.warp_sync
        }),
{
}

/// The tasks of a node, and its RPC extensions, run on the node's own parts.
pub proof fn law_tasks_take_the_parts_of_the_node(
    parts: PartialComponents,
    config: Configuration,
    network: NetworkParts,
)
    ensures
        ({
            let params = parts.tasks(config, network);
            &&& params.config == config.id
            &&& params.client == parts.client
            &&& params.backend == parts.backend
            &&& params.task_manager == parts.task_manager
            &&& params.keystore == parts.keystore_container
            &&& params.transaction_pool == parts.transaction_pool
            &&& params.rpc_extensions_builder.client == parts.client
            &&& params.rpc_extensions_builder.pool == parts.transaction_pool
            &&& params.network == network.network
            &&& params.system_rpc_tx == network.system_rpc_tx
            &&& params.telemetry == parts.telemetry
            &&& !params.on_demand
            &&& !params.remote_blockchain
        }),
{
}

/// The proposers of a parachain record a proof, and work on what the node hands over.
pub proof fn law_proposers_record_a_proof(params: ConsensusParams)
    ensures
        params.proposer().proof_recording,
        params.proposer().spawn_handle.task_manager == params.task_manager,
        !params.proposer().spawn_handle.essential,
        params.proposer().client == params.client,
        params.proposer().transaction_pool == params.transaction_pool,
        params.proposer().prometheus == params.prometheus_registry,
        params.proposer().telemetry == params.telemetry,
{
}

/// A Nimbus consensus skips the question whether the node is eligible exactly where authoring is
/// forced. It imports through the node's client and asks the node's relay chain node, also for the
/// inherents of its blocks, and of no parachain but the given one.
pub proof fn law_nimbus_skips_prediction_only_by_force(
    params: ConsensusParams,
    para_id: ParaId,
    proposer_factory: ProposerFactoryId,
)
    ensures
        ({
            let nimbus = params.nimbus(para_id, proposer_factory);
            let inherents = nimbus.create_inherent_data_providers;
            &&& nimbus.skip_prediction <==> params.force_authoring
            &&& nimbus.para_id == para_id
            &&& nimbus.proposer_factory == proposer_factory
            &&& nimbus.block_import == params.client
            &&& nimbus.relay_chain_client == params.relay_chain_node
            &&& nimbus.relay_chain_backend == params.relay_chain_node
            &&& nimbus.parachain_client == params.client
            &&& nimbus.keystore == params.keystore
            &&& inherents.relay_chain_client == params.relay_chain_node
            &&& inherents.relay_chain_backend == params.relay_chain_node
            &&& inherents.para_id == para_id
        }),
{
}

/// A driver that builds the consensus itself is asked once, and is handed everything. Nimbus takes
/// two steps, and the second uses what the first brought.
pub proof fn law_consensus_is_built_by_one(
    para_id: ParaId,
    params: ConsensusParams,
    answers: Answers,
)
    ensures
        ({
            let driven = ConsensusBuilder::Driver.plan(para_id, params, answers);
            let nimbus = ConsensusBuilder::Nimbus.plan(para_id, params, answers);
            &&& driven.len() == 1
            &&& ConsensusBuilder::Driver.len() == 1
            &&& driven[0] == Action::BuildConsensus(params)
            &&& nimbus.len() == 2
            &&& ConsensusBuilder::Nimbus.len() == 2
            &&& nimbus[0] matches Action::NewProposerFactory(p) && p.proof_recording && p.client
                == params.client && p.transaction_pool == params.transaction_pool && p.prometheus
                == params.prometheus_registry && p.telemetry == params.telemetry
            &&& nimbus[1] matches Action::BuildNimbusConsensus(p) && p.para_id == para_id
                && p.skip_prediction == params.force_authoring && (answers.proposer_factory is Some
                ==> answers.proposer_factory == Some(p.proposer_factory))
        }),
{
}

} // verus!
