//! Runs of the orchestrator: what holds of every sequence of events,
//! in whatever order the three sources deliver them.

use vstd::prelude::*;
use crate::command::CommandSpecView;
use crate::input::{cancel_requests, InputEvent};
use crate::orchestrator::{
    initial, step, ActionView, EventView, OrchestratorState, OrchestratorView,
};
use crate::process::ProcessOutcomeView;

verus! {

/// The orchestrator after a run of events, taken one by one.
pub open spec fn state_after(o: OrchestratorView, events: Seq<EventView>) -> OrchestratorView
    decreases events.len(),
{
    if events.len() == 0 {
        o
    } else {
        step(state_after(o, events.drop_last()), events.last()).0
    }
}

/// What is to be done after the event at `index` of a run.
pub open spec fn action_at(o: OrchestratorView, events: Seq<EventView>, index: int) -> ActionView {
    step(state_after(o, events.take(index)), events[index]).1
}

/// One event keeps the command, never clears the mark that the end of the
/// fade was acted on, and keeps a well-formed orchestrator well formed.
pub proof fn lemma_step_keeps(o: OrchestratorView, event: EventView)
    ensures
        step(o, event).0.command == o.command,
        o.fade_consumed ==> step(o, event).0.fade_consumed,
        o.wf() ==> step(o, event).0.wf(),
{
}

/// Leaving is asked for by exactly the events that take the orchestrator
/// into `Terminating`: never without that change of state, and never by an
/// event that finds it there.
pub proof fn lemma_exit_iff_enters_terminating(o: OrchestratorView, event: EventView)
    ensures
        step(o, event).1 is Exit <==> (!(o.state is Terminating) && step(
            o,
            event,
        ).0.state is Terminating),
{
}

/// The state after the first `index + 1` events is one step on from the
/// state after the first `index`.
pub proof fn lemma_state_after_next(o: OrchestratorView, events: Seq<EventView>, index: int)
    requires
        0 <= index < events.len(),
    ensures
        state_after(o, events.take(index + 1)) == step(
            state_after(o, events.take(index)),
            events[index],
        ).0,
{
    let longer = events.take(index + 1);
    assert(longer.drop_last() =~= events.take(index));
    assert(longer.last() == events[index]);
}

/// A run keeps the command, never clears the mark that the end of the fade
/// was acted on, and keeps a well-formed orchestrator well formed.
pub proof fn lemma_run_keeps(o: OrchestratorView, events: Seq<EventView>)
    ensures
        state_after(o, events).command == o.command,
        o.fade_consumed ==> state_after(o, events).fade_consumed,
        o.wf() ==> state_after(o, events).wf(),
    decreases events.len(),
{
    if events.len() > 0 {
        lemma_run_keeps(o, events.drop_last());
        lemma_step_keeps(state_after(o, events.drop_last()), events.last());
    }
}

/// Once `Terminating`, always so, and nothing else changes either: the
/// state after any longer part of the run is the same.
pub proof fn lemma_terminating_persists(
    o: OrchestratorView,
    events: Seq<EventView>,
    from: int,
    to: int,
)
    requires
        0 <= from <= to <= events.len(),
        state_after(o, events.take(from)).state is Terminating,
    ensures
        state_after(o, events.take(to)) == state_after(o, events.take(from)),
    decreases to - from,
{
    if from < to {
        lemma_terminating_persists(o, events, from, to - 1);
        lemma_state_after_next(o, events, to - 1);
    }
}

/// Once the end of the fade was acted on, it stays acted on.
pub proof fn lemma_fade_consumed_persists(
    o: OrchestratorView,
    events: Seq<EventView>,
    from: int,
    to: int,
)
    requires
        0 <= from <= to <= events.len(),
        state_after(o, events.take(from)).fade_consumed,
    ensures
        state_after(o, events.take(to)).fade_consumed,
    decreases to - from,
{
    if from < to {
        lemma_fade_consumed_persists(o, events, from, to - 1);
        lemma_state_after_next(o, events, to - 1);
        lemma_step_keeps(state_after(o, events.take(to - 1)), events[to - 1]);
    }
}

/// After the event that asked for leaving, every event is met with
/// `Nothing`: those queued behind it too.
pub proof fn lemma_nothing_after_exit(
    o: OrchestratorView,
    events: Seq<EventView>,
    exit: int,
    later: int,
)
    requires
        0 <= exit < later < events.len(),
        action_at(o, events, exit) is Exit,
    ensures
        action_at(o, events, later) == ActionView::Nothing,
        state_after(o, events.take(later)).state is Terminating,
{
    lemma_exit_iff_enters_terminating(state_after(o, events.take(exit)), events[exit]);
    lemma_state_after_next(o, events, exit);
    lemma_terminating_persists(o, events, exit + 1, later);
}

/// No run asks for leaving twice.
pub proof fn lemma_exits_at_most_once(
    o: OrchestratorView,
    events: Seq<EventView>,
    first: int,
    second: int,
)
    requires
        0 <= first < second < events.len(),
    ensures
        !(action_at(o, events, first) is Exit && action_at(o, events, second) is Exit),
{
    if action_at(o, events, first) is Exit {
        lemma_nothing_after_exit(o, events, first, second);
    }
}

/// A request to cancel always wins. Wherever in a run it stands, the
/// orchestrator is `Terminating` once it was taken; it asks for leaving,
/// with no warning, unless an earlier event already did; and whatever
/// follows, a report of the child's end among it, is met with `Nothing`.
pub proof fn lemma_cancel_wins(o: OrchestratorView, events: Seq<EventView>, index: int)
    requires
        0 <= index < events.len(),
        events[index] is CancelRequest,
    ensures
        state_after(o, events.take(index + 1)).state is Terminating,
        !(state_after(o, events.take(index)).state is Terminating) ==> action_at(o, events, index)
            == ActionView::Exit(None),
        state_after(o, events.take(index)).state is Terminating ==> action_at(o, events, index)
            == ActionView::Nothing,
        forall|later: int|
            index < later < events.len() ==> #[trigger] action_at(o, events, later)
                == ActionView::Nothing,
{
    lemma_state_after_next(o, events, index);
    assert forall|later: int| index < later < events.len() implies #[trigger] action_at(
        o,
        events,
        later,
    ) == ActionView::Nothing by {
        lemma_terminating_persists(o, events, index + 1, later);
    }
}

/// Of a run of inputs that reaches an orchestrator not yet leaving, the
/// first asks for leaving and every other is met with `Nothing`.
pub proof fn lemma_first_input_terminates(o: OrchestratorView, inputs: Seq<InputEvent>)
    requires
        !(o.state is Terminating),
        inputs.len() > 0,
    ensures
        action_at(o, cancel_requests(inputs), 0) == ActionView::Exit(None),
        forall|later: int|
            0 < later < inputs.len() ==> #[trigger] action_at(o, cancel_requests(inputs), later)
                == ActionView::Nothing,
        state_after(o, cancel_requests(inputs)).state is Terminating,
{
    let events = cancel_requests(inputs);
    assert(events.take(0) =~= Seq::<EventView>::empty());
    lemma_cancel_wins(o, events, 0);
    lemma_terminating_persists(o, events, 1, events.len() as int);
    assert(events.take(events.len() as int) =~= events);
}

/// The command is started only in answer to the end of the fade, only
/// where there is a command, and only by an orchestrator that had not
/// acted on the end of the fade before.
pub proof fn lemma_spawn_answers_fade(o: OrchestratorView, events: Seq<EventView>, index: int)
    requires
        0 <= index < events.len(),
        action_at(o, events, index) is Spawn,
    ensures
        events[index] is FadeComplete,
        o.command.argv.len() > 0,
        !state_after(o, events.take(index)).fade_consumed,
        state_after(o, events.take(index + 1)).fade_consumed,
{
    lemma_run_keeps(o, events.take(index));
    lemma_state_after_next(o, events, index);
}

/// No run starts the command twice.
pub proof fn lemma_spawns_at_most_once(
    o: OrchestratorView,
    events: Seq<EventView>,
    first: int,
    second: int,
)
    requires
        0 <= first < second < events.len(),
    ensures
        !(action_at(o, events, first) is Spawn && action_at(o, events, second) is Spawn),
{
    if action_at(o, events, first) is Spawn {
        lemma_spawn_answers_fade(o, events, first);
        lemma_fade_consumed_persists(o, events, first + 1, second);
    }
}

/// With no command, no run from program start ever starts or awaits
/// anything, and the end of the fade leaves the orchestrator
/// `Terminating`.
pub proof fn lemma_no_command_never_spawns(
    command: CommandSpecView,
    events: Seq<EventView>,
    index: int,
)
    requires
        command.argv.len() == 0,
        0 <= index < events.len(),
    ensures
        !(action_at(initial(command), events, index) is Spawn),
        !(action_at(initial(command), events, index) is Await),
        events[index] is FadeComplete ==> state_after(
            initial(command),
            events.take(index + 1),
        ).state is Terminating,
{
    let o = initial(command);
    lemma_run_keeps(o, events.take(index));
    lemma_state_after_next(o, events, index);
    lemma_never_pending_without_command(command, events.take(index));
}

/// With no command, an orchestrator that came from program start is
/// either still waiting for the end of the fade or already leaving.
pub proof fn lemma_never_pending_without_command(command: CommandSpecView, events: Seq<EventView>)
    requires
        command.argv.len() == 0,
    ensures
        state_after(initial(command), events).state is Terminating || (state_after(
            initial(command),
            events,
        ).state is Initializing && !state_after(initial(command), events).fade_consumed),
    decreases events.len(),
{
    if events.len() > 0 {
        lemma_never_pending_without_command(command, events.drop_last());
        lemma_run_keeps(initial(command), events.drop_last());
    }
}

/// A child is awaited only in answer to the report that it runs, and a
/// report that no child could be started is never answered by awaiting
/// one: it is answered by leaving, or not at all.
pub proof fn lemma_await_answers_spawned(o: OrchestratorView, events: Seq<EventView>, index: int)
    requires
        0 <= index < events.len(),
    ensures
        action_at(o, events, index) is Await ==> events[index] == EventView::Process(
            ProcessOutcomeView::Spawned(action_at(o, events, index)->Await_0),
        ),
        events[index] matches EventView::Process(ProcessOutcomeView::SpawnFailed(message))
            ==> action_at(o, events, index) == ActionView::Nothing || (action_at(o, events, index)
            is Exit && state_after(o, events.take(index + 1)).state is Terminating),
{
    lemma_state_after_next(o, events, index);
}

/// From program start, the states come in order: the child runs only
/// after the end of the fade was acted on.
pub proof fn lemma_running_follows_fade(command: CommandSpecView, events: Seq<EventView>)
    ensures
        state_after(initial(command), events).state is Running ==> state_after(
            initial(command),
            events,
        ).fade_consumed && command.argv.len() > 0,
{
    lemma_run_keeps(initial(command), events);
}

} // verus!
