//! What the actions of a start-up are handed, whatever the driver replies: the number of the
//! parachain, the runtime, and what tasks are spawned through.
use crate::action::{Action, Reply};
use crate::components::{ParaId, SpawnHandle};
use crate::executor::Runtime;
use crate::instant_seal::StartInstantSealNode;
use crate::laws::runs::{attempted, law_run_follows_plan, run};
use crate::parachain::StartNode;
use crate::partial::NewPartial;
use crate::startup::{Procedure, StartupView};
use vstd::prelude::*;

verus! {

/// Whether `action` hands the number `id` of a parachain on, for its own use or for what is to
/// come of it.
pub open spec fn hands_para_id(action: Action, id: ParaId) -> bool {
    match action {
        Action::BuildAnnounceValidator(p) => id == p.para_id,
        Action::BuildNimbusConsensus(p) => {
            ||| id == p.para_id
            ||| id == p.create_inherent_data_providers.para_id
        },
        Action::StartCollator(p) => id == p.para_id,
        Action::StartFullNode(p) => id == p.para_id,
        _ => false,
    }
}

/// A parachain node goes by one number throughout: whatever an action hands on as the number of the
/// parachain is the one that the node was started with. The inherents of later blocks go by it
/// too.
pub proof fn law_node_goes_by_one_para_id<E>(
    procedure: StartNode,
    replies: Seq<Reply<E>>,
    k: int,
    id: ParaId,
)
    requires
        0 <= k < attempted(StartupView::<StartNode, E>::fresh(procedure), replies).len(),
        hands_para_id(
            attempted(StartupView::<StartNode, E>::fresh(procedure), replies)[k],
            id,
        ),
    ensures
        id == procedure.id,
{
    law_run_follows_plan::<StartNode, E>(procedure, replies);
    let end = run(StartupView::<StartNode, E>::fresh(procedure), replies);
    assert(hands_para_id(end.plan()[k], id));
}

/// Whether `action` makes a client only for `runtime`.
pub open spec fn made_for(action: Action, runtime: Runtime) -> bool {
    action matches Action::NewFullParts { runtime_api, executor, .. } ==> {
        &&& runtime_api == runtime.api
        &&& executor.native == runtime.executor
    }
}

/// The client among the parts that every node is built on is made for the runtime that the caller
/// chose.
pub proof fn law_partial_is_made_for_its_runtime<E>(
    procedure: NewPartial,
    replies: Seq<Reply<E>>,
    k: int,
)
    requires
        0 <= k < attempted(StartupView::<NewPartial, E>::fresh(procedure), replies).len(),
    ensures
        made_for(
            attempted(StartupView::<NewPartial, E>::fresh(procedure), replies)[k],
            procedure.runtime,
        ),
{
    law_run_follows_plan::<NewPartial, E>(procedure, replies);
}

/// The client of a parachain node is made for the runtime that the caller chose.
pub proof fn law_node_is_made_for_its_runtime<E>(
    procedure: StartNode,
    replies: Seq<Reply<E>>,
    k: int,
)
    requires
        0 <= k < attempted(StartupView::<StartNode, E>::fresh(procedure), replies).len(),
    ensures
        made_for(
            attempted(StartupView::<StartNode, E>::fresh(procedure), replies)[k],
            procedure.runtime,
        ),
{
    law_run_follows_plan::<StartNode, E>(procedure, replies);
}

/// The client of an instant seal node is made for the template's own runtime.
pub proof fn law_instant_seal_is_made_for_the_template<E>(
    procedure: StartInstantSealNode,
    replies: Seq<Reply<E>>,
    k: int,
)
    requires
        0 <= k < attempted(StartupView::<StartInstantSealNode, E>::fresh(procedure), replies).len(),
    ensures
        made_for(
            attempted(StartupView::<StartInstantSealNode, E>::fresh(procedure), replies)[k],
            Runtime::of_template(),
        ),
{
    law_run_follows_plan::<StartInstantSealNode, E>(procedure, replies);
}

/// What the tasks that `action` spawns, or that are spawned by what it makes, are spawned through.
pub open spec fn spawned_through(action: Action) -> Option<SpawnHandle> {
    match action {
        Action::SpawnTelemetryWorker { spawn_handle, .. } => Some(spawn_handle),
        Action::NewTransactionPool(p) => Some(p.spawner),
        Action::NewImportQueue(p) => Some(p.spawner),
        Action::BuildNetwork(p) => Some(p.spawn_handle),
        Action::BuildOffchainWorkers(p) => Some(p.spawn_handle),
        Action::NewProposerFactory(p) => Some(p.spawn_handle),
        Action::StartCollator(p) => Some(p.spawner),
        Action::SpawnInstantSeal { spawn_handle, .. } => Some(spawn_handle),
        _ => None,
    }
}

/// Whether a node cannot go on without the tasks that `action` spawns, or that are spawned by what
/// it makes.
pub open spec fn is_essential(action: Action) -> bool {
    action is NewTransactionPool || action is NewImportQueue || action is SpawnInstantSeal
}

/// The tasks of the transaction pool and of the import queue are essential, the telemetry task is
/// not; all belong to the task manager that came with the client.
pub proof fn law_partial_spawns_through_its_task_manager<E>(
    procedure: NewPartial,
    replies: Seq<Reply<E>>,
    k: int,
)
    requires
        0 <= k < attempted(StartupView::<NewPartial, E>::fresh(procedure), replies).len(),
    ensures
        ({
            let start = StartupView::<NewPartial, E>::fresh(procedure);
            let action = attempted(start, replies)[k];
            spawned_through(action) is Some ==> spawned_through(action) == Some(
                (SpawnHandle {
                    task_manager: run(start, replies).answers.full_parts->0.task_manager,
                    essential: is_essential(action),
                }),
            )
        }),
{
    law_run_follows_plan::<NewPartial, E>(procedure, replies);
}

/// Of the tasks of a parachain node, those of the transaction pool and of the import queue are
/// essential and no others are; all belong to the task manager that came with the client.
pub proof fn law_node_spawns_through_its_task_manager<E>(
    procedure: StartNode,
    replies: Seq<Reply<E>>,
    k: int,
)
    requires
        0 <= k < attempted(StartupView::<StartNode, E>::fresh(procedure), replies).len(),
    ensures
        ({
            let start = StartupView::<StartNode, E>::fresh(procedure);
            let action = attempted(start, replies)[k];
            spawned_through(action) is Some ==> spawned_through(action) == Some(
                (SpawnHandle {
                    task_manager: run(start, replies).answers.full_parts->0.task_manager,
                    essential: is_essential(action),
                }),
            )
        }),
{
    law_run_follows_plan::<StartNode, E>(procedure, replies);
}

/// Of the tasks of an instant seal node, those of the transaction pool and of the import queue and
/// the seal task are essential and no others are; all belong to the task manager that came with the
/// client.
pub proof fn law_instant_seal_spawns_through_its_task_manager<E>(
    procedure: StartInstantSealNode,
    replies: Seq<Reply<E>>,
    k: int,
)
    requires
        0 <= k < attempted(StartupView::<StartInstantSealNode, E>::fresh(procedure), replies).len(),
    ensures
        ({
            let start = StartupView::<StartInstantSealNode, E>::fresh(procedure);
            let action = attempted(start, replies)[k];
            spawned_through(action) is Some ==> spawned_through(action) == Some(
                (SpawnHandle {
                    task_manager: run(start, replies).answers.full_parts->0.task_manager,
                    essential: is_essential(action),
                }),
            )
        }),
{
    law_run_follows_plan::<StartInstantSealNode, E>(procedure, replies);
}

} // verus!
