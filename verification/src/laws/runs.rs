//! What holds of a run, whatever the procedure and whatever the driver replies.
use crate::action::{Action, Reply};
use crate::error::ServiceErrorView;
use crate::startup::{Procedure, StartupView, MAX_ACTIONS};
use vstd::prelude::*;

verus! {

/// The state of a start-up that began in `start` and has been sent `replies`.
pub open spec fn run<P: Procedure, E>(
    start: StartupView<P, E>,
    replies: Seq<Reply<E>>,
) -> StartupView<P, E>
    decreases replies.len(),
{
    if replies.len() == 0 {
        start
    } else {
        run(start, replies.drop_last()).after(replies.last())
    }
}

/// The actions that a driver who sent `replies` has carried out, or has failed to.
pub open spec fn attempted<P: Procedure, E>(
    start: StartupView<P, E>,
    replies: Seq<Reply<E>>,
) -> Seq<Action>
    decreases replies.len(),
{
    if replies.len() == 0 {
        seq![]
    } else {
        let before = run(start, replies.drop_last());
        let earlier = attempted(start, replies.drop_last());
        if before.accepts(replies.last()) {
            earlier.push(before.due()->0)
        } else {
            earlier
        }
    }
}

/// A reply leaves a start-up's actions and answers in step.
pub proof fn law_reply_keeps_step<P: Procedure, E>(state: StartupView<P, E>, reply: Reply<E>)
    requires
        state.wf(),
    ensures
        state.after(reply).wf(),
{
    if state.accepts(reply) && reply is Given {
        state.procedure.past_stands(state.answers, state.done, reply->Given_0);
    }
}

/// An action is due exactly as long as a start-up has not ended.
pub proof fn law_due_until_ended<P: Procedure, E>(state: StartupView<P, E>)
    requires
        state.wf(),
    ensures
        state.due() is Some <==> state.outcome() is None,
{
}

/// A failure that comes back for the action that is due ends the start-up, with that failure.
pub proof fn law_failure_ends<P: Procedure, E>(state: StartupView<P, E>, reply: Reply<E>)
    requires
        state.accepts(reply),
        crate::action::failure_of(reply) is Some,
    ensures
        state.after(reply).due() is None,
        state.after(reply).outcome() == Some(
            Err::<P::Output, ServiceErrorView<E>>(crate::action::failure_of(reply)->0),
        ),
{
}

/// A start-up that has ended stays as it is, whatever is sent to it.
pub proof fn law_ended_stays<P: Procedure, E>(state: StartupView<P, E>, replies: Seq<Reply<E>>)
    requires
        state.wf(),
        state.outcome() is Some,
    ensures
        run(state, replies) == state,
        attempted(state, replies) == Seq::<Action>::empty(),
    decreases replies.len(),
{
    if replies.len() > 0 {
        law_ended_stays(state, replies.drop_last());
    }
}

/// An answer takes a start-up on by one action, and neither it nor any later answer changes what
/// was asked for before.
pub proof fn law_answer_moves_on<P: Procedure, E>(state: StartupView<P, E>, reply: Reply<E>)
    requires
        state.wf(),
        state.accepts(reply),
        crate::action::failure_of(reply) is None,
    ensures
        state.after(reply).done == state.done + 1,
        state.after(reply).failure is None,
        state.after(reply).plan().take(state.done + 1) == state.plan().take(state.done + 1),
{
    state.procedure.past_stands(state.answers, state.done, reply->Given_0);
    let later = state.after(reply).plan();
    assert forall|k: int| 0 <= k < state.done + 1 implies #[trigger] later.take(state.done + 1)[k]
        == state.plan().take(state.done + 1)[k] by {
        assert(later[k] == state.plan()[k]);
    }
}

/// Whatever a driver replies, the actions that it attempts are those that the plan begins with, in
/// the plan's order: all that were carried out, and the one that failed, if one did.
pub proof fn law_run_follows_plan<P: Procedure, E>(procedure: P, replies: Seq<Reply<E>>)
    ensures
        ({
            let start = StartupView::<P, E>::fresh(procedure);
            let end = run(start, replies);
            let tried = end.done + if end.failure is Some {
                1int
            } else {
                0int
            };
            &&& end.wf()
            &&& end.procedure == procedure
            &&& tried <= end.plan().len()
            &&& attempted(start, replies) == end.plan().take(tried)
        }),
    decreases replies.len(),
{
    let start = StartupView::<P, E>::fresh(procedure);
    if replies.len() > 0 {
        let before = run(start, replies.drop_last());
        let end = run(start, replies);
        law_run_follows_plan::<P, E>(procedure, replies.drop_last());
        law_reply_keeps_step(before, replies.last());
        if before.accepts(replies.last()) {
            assert(attempted(start, replies) == before.plan().take(before.done + 1));
            if replies.last() is Given {
                law_answer_moves_on(before, replies.last());
            }
        }
    } else {
        assert(attempted(start, replies) == start.plan().take(0));
    }
}

/// Whether the `k`th of `replies` is one to the action that is due when it comes, and reports
/// `error`.
pub open spec fn failed_at<P: Procedure, E>(
    start: StartupView<P, E>,
    replies: Seq<Reply<E>>,
    k: int,
    error: ServiceErrorView<E>,
) -> bool {
    &&& 0 <= k < replies.len()
    &&& run(start, replies.take(k)).accepts(replies[k])
    &&& crate::action::failure_of(replies[k]) == Some(error)
}

/// A start-up fails with the first failure and with no other: it ends with an error exactly where
/// some action that was due came back with that error. The action is the one that the plan holds
/// behind those that were carried out, and the last that was attempted.
pub proof fn law_error_is_first_failure<P: Procedure, E>(
    procedure: P,
    replies: Seq<Reply<E>>,
    error: ServiceErrorView<E>,
)
    ensures
        ({
            let start = StartupView::<P, E>::fresh(procedure);
            let end = run(start, replies);
            let failed = end.outcome() == Some(Err::<P::Output, ServiceErrorView<E>>(error));
            &&& failed <==> exists|k: int| #[trigger] failed_at(start, replies, k, error)
            &&& forall|k: int| #[trigger]
                failed_at(start, replies, k, error) ==> {
                    &&& end.done < end.plan().len()
                    &&& run(start, replies.take(k)).due() == Some(end.plan()[end.done])
                    &&& crate::action::fits(end.plan()[end.done], replies[k])
                    &&& attempted(start, replies).len() == end.done + 1
                    &&& attempted(start, replies).last() == end.plan()[end.done]
                }
        }),
    decreases replies.len(),
{
    let start = StartupView::<P, E>::fresh(procedure);
    let end = run(start, replies);
    if replies.len() > 0 {
        let last = replies.len() - 1;
        let earlier = replies.drop_last();
        law_error_is_first_failure::<P, E>(procedure, earlier, error);
        law_run_follows_plan::<P, E>(procedure, replies);
        assert(replies.take(last) == earlier);
        assert(forall|k: int| 0 <= k < last ==> #[trigger] replies.take(k) == earlier.take(k));
        assert forall|k: int| 0 <= k < last implies #[trigger] failed_at(start, replies, k, error)
            == failed_at(start, earlier, k, error) by {
            assert(replies.take(k) == earlier.take(k));
        }
        let before = run(start, earlier);
        if before.failure is Some {
            assert(!failed_at(start, replies, last, error));
            if before.failure == Some(error) {
                let k = choose|k: int| #[trigger] failed_at(start, earlier, k, error);
                assert(failed_at(start, replies, k, error));
            }
        } else if end.failure == Some(error) {
            assert(failed_at(start, replies, last, error));
        }
    }
}

/// A start-up that ends well has carried its whole plan out.
pub proof fn law_success_means_whole_plan<P: Procedure, E>(procedure: P, replies: Seq<Reply<E>>)
    requires
        run(StartupView::<P, E>::fresh(procedure), replies).outcome() matches Some(Ok(_)),
    ensures
        ({
            let start = StartupView::<P, E>::fresh(procedure);
            let end = run(start, replies);
            &&& attempted(start, replies) == end.plan()
            &&& end.outcome() == Some(
                Ok::<P::Output, ServiceErrorView<E>>(procedure.output(end.answers)),
            )
        }),
{
    law_run_follows_plan::<P, E>(procedure, replies);
    let end = run(StartupView::<P, E>::fresh(procedure), replies);
    assert(end.plan().take(end.done) == end.plan());
}

/// Whether every reply is an answer to the action that is due when it comes.
pub open spec fn all_answered<P: Procedure, E>(
    start: StartupView<P, E>,
    replies: Seq<Reply<E>>,
) -> bool
    decreases replies.len(),
{
    replies.len() > 0 ==> {
        &&& all_answered(start, replies.drop_last())
        &&& replies.last() is Given
        &&& run(start, replies.drop_last()).accepts(replies.last())
    }
}

/// A start-up of which every action is carried out ends well, with the last of them and not
/// before.
pub proof fn law_all_answered_succeeds<P: Procedure, E>(procedure: P, replies: Seq<Reply<E>>)
    requires
        all_answered(StartupView::<P, E>::fresh(procedure), replies),
    ensures
        ({
            let end = run(StartupView::<P, E>::fresh(procedure), replies);
            &&& end.done == replies.len()
            &&& replies.len() < end.plan().len() ==> end.outcome() is None
            &&& replies.len() == end.plan().len() ==> end.outcome() == Some(
                Ok::<P::Output, ServiceErrorView<E>>(procedure.output(end.answers)),
            )
            &&& replies.len() <= end.plan().len()
        }),
    decreases replies.len(),
{
    let start = StartupView::<P, E>::fresh(procedure);
    law_run_follows_plan::<P, E>(procedure, replies);
    if replies.len() > 0 {
        law_run_follows_plan::<P, E>(procedure, replies.drop_last());
        law_all_answered_succeeds::<P, E>(procedure, replies.drop_last());
    }
}

/// No start-up asks for more than [`MAX_ACTIONS`] actions, whatever its driver replies.
pub proof fn law_runs_are_bounded<P: Procedure, E>(procedure: P, replies: Seq<Reply<E>>)
    ensures
        attempted(StartupView::<P, E>::fresh(procedure), replies).len() <= MAX_ACTIONS,
{
    law_run_follows_plan::<P, E>(procedure, replies);
    let end = run(StartupView::<P, E>::fresh(procedure), replies);
    procedure.plan_is_bounded(end.answers);
}

} // verus!
