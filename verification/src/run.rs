//! Whole runs of a worker: what holds of every sequence of events.

use vstd::prelude::*;
use crate::config::lemma_invalid_size_is_not_applied;
use crate::config::lemma_unpassable_style_is_not_applied;
use crate::config::passable;
use crate::config::Call;
use crate::request::RequestView;
use crate::retry::budget;
use crate::retry::lemma_render_fails_beyond_budget;
use crate::retry::lemma_render_succeeds_within_budget;
use crate::retry::outcome;
use crate::retry::verdict;
use crate::retry::Verdict;
use crate::worker::next;
use crate::worker::DirectiveView;
use crate::worker::EventView;
use crate::worker::Phase;
use crate::worker::WorkerModel;

verus! {

/// The worker after a sequence of events, taken first to last.
pub open spec fn run(worker: WorkerModel, events: Seq<EventView>) -> WorkerModel
    decreases events.len(),
{
    if events.len() == 0 {
        worker
    } else {
        next(run(worker, events.drop_last()), events.last()).0
    }
}

/// The directive that the last event of a run is answered with.
pub open spec fn last_directive(worker: WorkerModel, events: Seq<EventView>) -> DirectiveView
    recommends
        events.len() > 0,
{
    next(run(worker, events.drop_last()), events.last()).1
}

/// The number of calls that the worker took up during a run.
pub open spec fn accepted(worker: WorkerModel, events: Seq<EventView>) -> nat
    decreases events.len(),
{
    if events.len() == 0 {
        0
    } else {
        accepted(worker, events.drop_last()) + if last_directive(worker, events) is Render {
            1nat
        } else {
            0nat
        }
    }
}

/// The results that the worker sent off during a run, in order: `true`
/// for an image, `false` for a failure.
pub open spec fn replies(worker: WorkerModel, events: Seq<EventView>) -> Seq<bool>
    decreases events.len(),
{
    if events.len() == 0 {
        Seq::empty()
    } else {
        let earlier = replies(worker, events.drop_last());
        match last_directive(worker, events) {
            DirectiveView::Reply { rendered } => earlier.push(rendered),
            _ => earlier,
        }
    }
}

/// The number of results that the worker sent off during a run.
pub open spec fn replied(worker: WorkerModel, events: Seq<EventView>) -> nat {
    replies(worker, events).len()
}

/// What a list of render attempts looks like to the worker.
pub open spec fn attempts_as_events(attempts: Seq<bool>) -> Seq<EventView> {
    attempts.map_values(|rendered: bool| EventView::Attempt { rendered })
}

/// The result that an event is answered with, if it is answered with one.
pub open spec fn reply_to(worker: WorkerModel, event: EventView) -> Seq<bool> {
    match next(worker, event).1 {
        DirectiveView::Reply { rendered } => seq![rendered],
        _ => Seq::empty(),
    }
}

/// Every call that a worker takes up is answered exactly once.
///
/// At any point of any run of a worker that began idle, the results sent
/// never outnumber the calls taken up, and fall short of them by one only
/// while that call is being rendered, or if the worker was stopped while
/// rendering it.
pub proof fn lemma_each_call_is_answered_once(worker: WorkerModel, events: Seq<EventView>)
    requires
        worker.phase is Idle,
    ensures
        replied(worker, events) <= accepted(worker, events) <= replied(worker, events) + 1,
        run(worker, events).phase is Idle || run(worker, events).phase is Replying ==> accepted(
            worker,
            events,
        ) == replied(worker, events),
        run(worker, events).phase is Rendering ==> accepted(worker, events) == replied(
            worker,
            events,
        ) + 1,
    decreases events.len(),
{
    if events.len() > 0 {
        lemma_each_call_is_answered_once(worker, events.drop_last());
    }
}

/// The renderer is never handed what it cannot take: whatever the event,
/// a size that a worker tells it to set lies within its limits, and a style
/// that a worker tells it to load has a name without a NUL byte.
pub proof fn lemma_renderer_is_handed_only_what_it_takes(worker: WorkerModel, event: EventView)
    ensures
        next(worker, event).1 matches DirectiveView::Render(calls) ==> forall|i: int|
            0 <= i < calls.len() ==> match #[trigger] calls[i] {
                Call::SetSize(size) => size.valid(),
                Call::LoadStyle(style) => passable(style),
                Call::JumpTo(_) => true,
            },
{
    if let (Phase::Idle, EventView::Wake { stop: false, call: Some(request) }) = (
        worker.phase,
        event,
    ) {
        lemma_invalid_size_is_not_applied(worker.config, request);
        lemma_unpassable_style_is_not_applied(worker.config, request);
    }
}

/// A worker never has more retries in hand than its budget, and never
/// fewer than none; the budget itself does not change during a run.
pub proof fn lemma_retries_stay_within_budget(worker: WorkerModel, events: Seq<EventView>)
    requires
        worker.phase is Idle,
    ensures
        run(worker, events).retries == worker.retries,
        run(worker, events).phase matches Phase::Rendering { retries_left } ==> 0 <= retries_left
            <= budget(worker.retries),
    decreases events.len(),
{
    if events.len() > 0 {
        lemma_retries_stay_within_budget(worker, events.drop_last());
    }
}

/// The stop signal wins: whatever the worker is doing and whether or not a
/// call is ready, a wake that saw the signal stops the worker, and the call
/// is not started.
pub proof fn lemma_stop_wins(worker: WorkerModel, call: Option<RequestView>)
    ensures
        next(worker, EventView::Wake { stop: true, call }).0.phase is Stopped,
        next(worker, EventView::Wake { stop: true, call }).1 is Exit,
        next(worker, EventView::Wake { stop: true, call }).0.config == worker.config,
{
}

/// A stopped worker stays stopped: no event changes it, and none is
/// answered with anything but the order to leave.
pub proof fn lemma_stopped_is_final(worker: WorkerModel, events: Seq<EventView>)
    requires
        worker.phase is Stopped,
    ensures
        run(worker, events) == worker,
        accepted(worker, events) == 0,
        replied(worker, events) == 0,
        events.len() > 0 ==> last_directive(worker, events) is Exit,
    decreases events.len(),
{
    if events.len() > 0 {
        lemma_stopped_is_final(worker, events.drop_last());
    }
}

/// A render that fails, however often, neither stops the worker nor
/// touches what it remembers of its renderer; the same holds of a result
/// that reaches nobody.
pub proof fn lemma_failures_are_contained(worker: WorkerModel, event: EventView)
    requires
        event is Attempt || event is Delivered,
    ensures
        next(worker, event).0.config == worker.config,
        next(worker, event).0.retries == worker.retries,
        next(worker, event).0.phase is Stopped <==> worker.phase is Stopped,
{
}

/// A caller that has stopped waiting changes nothing for the worker: it
/// goes on exactly as if the result had been taken.
pub proof fn lemma_abandoned_reply_is_harmless(worker: WorkerModel)
    ensures
        next(worker, EventView::Delivered { accepted: false }) == next(
            worker,
            EventView::Delivered { accepted: true },
        ),
        worker.phase is Replying ==> next(
            worker,
            EventView::Delivered { accepted: false },
        ).0.phase is Idle,
{
}

/// After a result has gone off the worker takes the next call.
pub proof fn lemma_worker_serves_again(
    worker: WorkerModel,
    accepted: bool,
    request: RequestView,
)
    requires
        worker.phase is Replying,
    ensures
        ({
            let idle = next(worker, EventView::Delivered { accepted }).0;
            let taken = next(idle, EventView::Wake { stop: false, call: Some(request) });
            &&& taken.0.phase == Phase::Rendering { retries_left: budget(worker.retries) }
            &&& taken.1 is Render
        }),
{
}

/// A run goes on from the state that its first event leaves, and its
/// results are the first event's result followed by those of the rest.
pub proof fn lemma_run_unfolds_at_the_front(
    worker: WorkerModel,
    first: EventView,
    rest: Seq<EventView>,
)
    ensures
        run(worker, seq![first] + rest) == run(next(worker, first).0, rest),
        replies(worker, seq![first] + rest) == reply_to(worker, first) + replies(
            next(worker, first).0,
            rest,
        ),
    decreases rest.len(),
{
    let all = seq![first] + rest;
    if rest.len() == 0 {
        assert(all.drop_last() =~= Seq::<EventView>::empty());
        assert(all.last() == first);
        assert(run(worker, all.drop_last()) == worker);
        assert(replies(worker, all.drop_last()) =~= Seq::<bool>::empty());
        assert(replies(worker, all) =~= reply_to(worker, first));
        assert(reply_to(worker, first) + replies(next(worker, first).0, rest) =~= reply_to(
            worker,
            first,
        ));
    } else {
        lemma_run_unfolds_at_the_front(worker, first, rest.drop_last());
        assert(all.drop_last() =~= seq![first] + rest.drop_last());
        assert(all.last() == rest.last());
        let after = next(worker, first).0;
        assert(replies(worker, all) =~= reply_to(worker, first) + replies(after, rest));
    }
}

/// A worker that is not rendering takes no notice of render attempts.
pub proof fn lemma_attempts_out_of_turn_change_nothing(worker: WorkerModel, attempts: Seq<bool>)
    requires
        !(worker.phase is Rendering),
    ensures
        run(worker, attempts_as_events(attempts)) == worker,
        replies(worker, attempts_as_events(attempts)) == Seq::<bool>::empty(),
    decreases attempts.len(),
{
    let events = attempts_as_events(attempts);
    if attempts.len() > 0 {
        lemma_attempts_out_of_turn_change_nothing(worker, attempts.drop_last());
        assert(events.drop_last() =~= attempts_as_events(attempts.drop_last()));
    }
}

/// A call ends as its render attempts decide.
///
/// For a worker that renders with `left` retries in hand: as long as the
/// attempts listed do not decide the render, the worker is still rendering
/// and has sent nothing; once they do, it has sent exactly one result, the
/// one that they decide, and further attempts change nothing.
pub proof fn lemma_call_ends_as_its_attempts_decide(
    worker: WorkerModel,
    left: i32,
    attempts: Seq<bool>,
)
    requires
        worker.phase == (Phase::Rendering { retries_left: left }),
    ensures
        replies(worker, attempts_as_events(attempts)) == (match outcome(left, attempts) {
            Some(rendered) => seq![rendered],
            None => Seq::<bool>::empty(),
        }),
        outcome(left, attempts) is Some ==> run(worker, attempts_as_events(attempts)) == (
        WorkerModel { phase: Phase::Replying, ..worker }),
        outcome(left, attempts) is None ==> run(worker, attempts_as_events(attempts)).phase
            is Rendering,
        run(worker, attempts_as_events(attempts)).config == worker.config,
    decreases attempts.len(),
{
    if attempts.len() > 0 {
        let first = EventView::Attempt { rendered: attempts[0] };
        let rest = attempts.drop_first();
        let after = next(worker, first).0;
        assert(attempts_as_events(attempts) =~= seq![first] + attempts_as_events(rest));
        lemma_run_unfolds_at_the_front(worker, first, attempts_as_events(rest));
        match verdict(left, attempts[0]) {
            Verdict::Retry { retries_left, .. } => {
                lemma_call_ends_as_its_attempts_decide(after, retries_left, rest);
                assert(reply_to(worker, first) + replies(after, attempts_as_events(rest))
                    =~= replies(after, attempts_as_events(rest)));
            },
            _ => {
                lemma_attempts_out_of_turn_change_nothing(after, rest);
                assert(reply_to(worker, first) + Seq::<bool>::empty() =~= reply_to(
                    worker,
                    first,
                ));
            },
        }
    }
}

/// A call whose render first succeeds after `failures` failed attempts is
/// answered with the image if `failures` is at most the worker's number of
/// retries, and with a failure if it is more. Either way it is answered once.
pub proof fn lemma_call_succeeds_within_budget(
    worker: WorkerModel,
    request: RequestView,
    attempts: Seq<bool>,
    failures: int,
)
    requires
        worker.phase is Idle,
        0 <= failures < attempts.len(),
        attempts[failures],
        forall|i: int| 0 <= i < failures ==> !attempts[i],
    ensures
        replies(
            worker,
            seq![EventView::Wake { stop: false, call: Some(request) }] + attempts_as_events(
                attempts,
            ),
        ) == seq![failures <= budget(worker.retries)],
{
    let wake = EventView::Wake { stop: false, call: Some(request) };
    let taken = next(worker, wake).0;
    lemma_run_unfolds_at_the_front(worker, wake, attempts_as_events(attempts));
    lemma_call_ends_as_its_attempts_decide(taken, budget(worker.retries), attempts);
    lemma_render_succeeds_within_budget(budget(worker.retries), attempts, failures);
    assert(reply_to(worker, wake) + replies(taken, attempts_as_events(attempts)) =~= replies(
        taken,
        attempts_as_events(attempts),
    ));
}

/// A call whose render attempts all fail is answered with a failure once
/// there has been one attempt more than the worker has retries, and not
/// before.
pub proof fn lemma_call_fails_beyond_budget(
    worker: WorkerModel,
    request: RequestView,
    attempts: Seq<bool>,
)
    requires
        worker.phase is Idle,
        forall|i: int| 0 <= i < attempts.len() ==> !attempts[i],
    ensures
        replies(
            worker,
            seq![EventView::Wake { stop: false, call: Some(request) }] + attempts_as_events(
                attempts,
            ),
        ) == (if attempts.len() > budget(worker.retries) {
            seq![false]
        } else {
            Seq::<bool>::empty()
        }),
{
    let wake = EventView::Wake { stop: false, call: Some(request) };
    let taken = next(worker, wake).0;
    lemma_run_unfolds_at_the_front(worker, wake, attempts_as_events(attempts));
    lemma_call_ends_as_its_attempts_decide(taken, budget(worker.retries), attempts);
    lemma_render_fails_beyond_budget(budget(worker.retries), attempts);
    assert(reply_to(worker, wake) + replies(taken, attempts_as_events(attempts)) =~= replies(
        taken,
        attempts_as_events(attempts),
    ));
}

/// The calls that the workers of a pool took up, all runs together.
pub open spec fn total_accepted(workers: Seq<WorkerModel>, runs: Seq<Seq<EventView>>) -> nat
    recommends
        workers.len() == runs.len(),
    decreases workers.len(),
{
    if workers.len() == 0 {
        0
    } else {
        total_accepted(workers.drop_last(), runs.drop_last()) + accepted(
            workers.last(),
            runs.last(),
        )
    }
}

/// The results that the workers of a pool sent off, all runs together.
pub open spec fn total_replied(workers: Seq<WorkerModel>, runs: Seq<Seq<EventView>>) -> nat
    recommends
        workers.len() == runs.len(),
    decreases workers.len(),
{
    if workers.len() == 0 {
        0
    } else {
        total_replied(workers.drop_last(), runs.drop_last()) + replied(
            workers.last(),
            runs.last(),
        )
    }
}

/// A pool answers every call that its workers took up exactly once.
///
/// However many workers there are and whatever each of them lived through:
/// the results sent never outnumber the calls taken up and fall short of
/// them by at most one for each worker. Once no worker is rendering and
/// none was stopped while it rendered, there are as many results as calls.
pub proof fn lemma_pool_answers_each_call_once(
    workers: Seq<WorkerModel>,
    runs: Seq<Seq<EventView>>,
)
    requires
        workers.len() == runs.len(),
        forall|i: int| 0 <= i < workers.len() ==> (#[trigger] workers[i]).phase is Idle,
    ensures
        total_replied(workers, runs) <= total_accepted(workers, runs) <= total_replied(
            workers,
            runs,
        ) + workers.len(),
        (forall|i: int|
            0 <= i < workers.len() ==> accepted(#[trigger] workers[i], runs[i]) == replied(
                workers[i],
                runs[i],
            )) ==> total_accepted(workers, runs) == total_replied(workers, runs),
    decreases workers.len(),
{
    if workers.len() > 0 {
        lemma_pool_answers_each_call_once(workers.drop_last(), runs.drop_last());
        lemma_each_call_is_answered_once(workers.last(), runs.last());
    }
}

} // verus!
