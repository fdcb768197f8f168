//! The consensus of a parachain node.
use crate::action::{Action, NimbusParams, ProposerParams};
use crate::components::{
    ClientId, KeystoreId, NetworkId, ParaId, ProposerFactoryId, RegistryId, RelayChainNodeId,
    SpawnHandle, TaskManagerId, TelemetryId, TransactionPoolId,
};
use crate::inherents::ParachainInherents;
use crate::startup::Answers;
use vstd::prelude::*;

verus! {

/// What a node hands over to have its consensus built.
#[derive(Clone, Copy, Debug, PartialEq, Eq, Structural)]
pub struct ConsensusParams {
    pub client: ClientId,
    pub prometheus_registry: Option<RegistryId>,
    pub telemetry: Option<TelemetryId>,
    pub task_manager: TaskManagerId,
    pub relay_chain_node: RelayChainNodeId,
    pub transaction_pool: TransactionPoolId,
    pub sync_oracle: NetworkId,
    pub keystore: KeystoreId,
    pub force_authoring: bool,
}

impl ConsensusParams {
    /// The proposers of a parachain record a storage proof of what they build.
    pub open spec fn proposer(self) -> ProposerParams {
        ProposerParams {
            proof_recording: true,
            spawn_handle: SpawnHandle { task_manager: self.task_manager, essential: false },
            client: self.client,
            transaction_pool: self.transaction_pool,
            prometheus: self.prometheus_registry,
            telemetry: self.telemetry,
        }
    }

    /// Blocks are imported through the node's own client, a node that is forced to author does not
    /// ask whether it is eligible, and what blocks say of the relay chain comes from the relay
    /// chain node that the node follows.
    pub open spec fn nimbus(
        self,
        para_id: ParaId,
        proposer_factory: ProposerFactoryId,
    ) -> NimbusParams {
        NimbusParams {
            para_id,
            proposer_factory,
            block_import: self.client,
            relay_chain_client: self.relay_chain_node,
            relay_chain_backend: self.relay_chain_node,
            parachain_client: self.client,
            keystore: self.keystore,
            skip_prediction: self.force_authoring,
            create_inherent_data_providers: ParachainInherents {
                relay_chain_client: self.relay_chain_node,
                relay_chain_backend: self.relay_chain_node,
                para_id,
            },
        }
    }

    /// What the proposer factory is made with.
    pub fn proposer_params(&self) -> (params: ProposerParams)
        ensures
            params == self.proposer(),
    {
        ProposerParams {
            proof_recording: true,
            spawn_handle: SpawnHandle { task_manager: self.task_manager, essential: false },
            client: self.client,
            transaction_pool: self.transaction_pool,
            prometheus: self.prometheus_registry,
            telemetry: self.telemetry,
        }
    }

    /// What the consensus itself is made with.
    pub fn nimbus_params(&self, para_id: ParaId, proposer_factory: ProposerFactoryId) -> (params:
        NimbusParams)
        ensures
            params == self.nimbus(para_id, proposer_factory),
    {
        NimbusParams {
            para_id,
            proposer_factory,
            block_import: self.client,
            relay_chain_client: self.relay_chain_node,
            relay_chain_backend: self.relay_chain_node,
            parachain_client: self.client,
            keystore: self.keystore,
            skip_prediction: self.force_authoring,
            create_inherent_data_providers: ParachainInherents {
                relay_chain_client: self.relay_chain_node,
                relay_chain_backend: self.relay_chain_node,
                para_id,
            },
        }
    }
}

/// Who builds the consensus of a node.
#[derive(Clone, Copy, Debug, PartialEq, Eq, Structural)]
pub enum ConsensusBuilder {
    /// The driver does, in a way of its own, and may fail.
    Driver,
    /// The start-up has a Nimbus consensus built, step by step.
    Nimbus,
}

impl ConsensusBuilder {
    /// The actions that build the consensus. Nimbus takes two: the proposer factory, and the
    /// consensus that uses it.
    pub open spec fn plan(
        self,
        para_id: ParaId,
        params: ConsensusParams,
        answers: Answers,
    ) -> Seq<Action> {
        match self {
            ConsensusBuilder::Driver => seq![Action::BuildConsensus(params)],
            ConsensusBuilder::Nimbus => seq![
                Action::NewProposerFactory(params.proposer()),
                Action::BuildNimbusConsensus(params.nimbus(para_id, answers.proposer_factory->0)),
            ],
        }
    }

    /// How many actions [`ConsensusBuilder::plan`] holds.
    pub open spec fn len(self) -> int {
        match self {
            ConsensusBuilder::Driver => 1,
            ConsensusBuilder::Nimbus => 2,
        }
    }

    /// How many actions the plan holds.
    pub fn count(&self) -> (count: usize)
        ensures
            count == self.len(),
            1 <= count <= 2,
    {
        match self {
            ConsensusBuilder::Driver => 1,
            ConsensusBuilder::Nimbus => 2,
        }
    }

    /// The action of the plan at `index`.
    pub fn action(
        &self,
        para_id: ParaId,
        params: &ConsensusParams,
        answers: &Answers,
        index: usize,
    ) -> (action: Action)
        requires
            index < self.len(),
            index >= 1 ==> answers.proposer_factory is Some,
        ensures
            action == self.plan(para_id, *params, *answers)[index as int],
    {
        match self {
            ConsensusBuilder::Driver => Action::BuildConsensus(*params),
            ConsensusBuilder::Nimbus => if index == 0 {
                Action::NewProposerFactory(params.proposer_params())
            } else {
                Action::BuildNimbusConsensus(
                    params.nimbus_params(para_id, answers.proposer_factory.unwrap()),
                )
            },
        }
    }
}

} // verus!
