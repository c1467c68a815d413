//! Whole runs of the controller, and what holds of every one of them.

use vstd::prelude::*;
use crate::action::{Action, PendingInitToken};
use crate::error::AppError;
use crate::event::{Event, WindowEvent};
use crate::model::{AppView, Lifecycle, Step};
use crate::state::StateView;
use crate::window::{Size, WindowHandle};

verus! {

/// What a run leaves behind: the state the controller ends in, and its
/// answer to each event, in the order of the events.
pub struct Trace {
    pub state: AppView,
    pub outputs: Seq<Result<Option<Action>, AppError>>,
}

/// The run that delivers `events` one after the other, beginning in `start`.
pub open spec fn replay(start: AppView, events: Seq<Event>) -> Trace
    decreases events.len(),
{
    if events.len() == 0 {
        Trace { state: start, outputs: Seq::empty() }
    } else {
        let before = replay(start, events.drop_last());
        let step = before.state.step(events.last());
        Trace { state: step.next, outputs: before.outputs.push(step.output) }
    }
}

/// A run in which nothing happened: the state it began in, and `n` times the
/// answer that there is nothing to do.
pub open spec fn uneventful(start: AppView, n: nat) -> Trace {
    Trace { state: start, outputs: Seq::new(n, |i: int| Ok(None)) }
}

/// The answers that hand the token to the host.
pub open spec fn is_spawn(output: Result<Option<Action>, AppError>) -> bool {
    output matches Ok(Some(Action::SpawnInit { .. }))
}

/// The answers that tell the host to leave the event loop.
pub open spec fn is_exit(output: Result<Option<Action>, AppError>) -> bool {
    output matches Ok(Some(Action::Exit))
}

/// How many times the answers hand the token to the host.
pub open spec fn spawns(outputs: Seq<Result<Option<Action>, AppError>>) -> nat {
    outputs.filter(|output| is_spawn(output)).len()
}

/// How many times the answers tell the host to leave the event loop.
pub open spec fn exits(outputs: Seq<Result<Option<Action>, AppError>>) -> nat {
    outputs.filter(|output| is_exit(output)).len()
}

/// How many tokens the controller holds: one or none.
pub open spec fn tokens_held(state: AppView) -> nat {
    if state.proxy() is Some {
        1
    } else {
        0
    }
}

/// The position of a state on the way from start to exit.
pub open spec fn progress(lifecycle: Lifecycle) -> nat {
    match lifecycle {
        Lifecycle::Uninitialized => 0,
        Lifecycle::AwaitingAsyncInit => 1,
        Lifecycle::Ready => 2,
        Lifecycle::ShuttingDown => 3,
    }
}

/// A run has one answer for each event.
pub proof fn lemma_one_output_per_event(start: AppView, events: Seq<Event>)
    ensures
        replay(start, events).outputs.len() == events.len(),
    decreases events.len(),
{
    if events.len() > 0 {
        lemma_one_output_per_event(start, events.drop_last());
    }
}

/// An event that the state ignores leaves the state as it is and gives the
/// host nothing to do.
pub proof fn lemma_ignored_event_changes_nothing(state: AppView, event: Event)
    requires
        state.ignores(event),
    ensures
        state.step(event) == state.ignore(),
{
}

/// An event that is answered with a failure leaves the state as it is.
pub proof fn lemma_failure_changes_nothing(state: AppView, event: Event)
    requires
        state.step(event).output is Err,
    ensures
        state.step(event).next == state,
        state is Uninitialized,
{
}

/// A redraw is only ever requested of the window that the render state
/// owns: whenever the answer is a redraw request, the controller is ready
/// afterwards and the request names the window of its render state.
pub proof fn lemma_redraw_names_the_owned_window(state: AppView, event: Event)
    ensures
        state.step(event).output matches Ok(Some(Action::RequestRedraw(window))) ==> (
        state.step(event).next matches AppView::Ready { state: ready } && ready.window == window),
{
}

/// However many events arrive, if each of them is one that the state
/// ignores, the controller ends in the state it began in, has given the host
/// nothing to do, and has reported no failure. This covers every key
/// transition but `Escape` going down, and every window event that arrives
/// before there is a render state.
pub proof fn lemma_ignored_events_change_nothing(start: AppView, events: Seq<Event>)
    requires
        forall|i: int| 0 <= i < events.len() ==> start.ignores(#[trigger] events[i]),
    ensures
        replay(start, events) == uneventful(start, events.len()),
    decreases events.len(),
{
    if events.len() > 0 {
        let earlier = events.drop_last();
        assert forall|i: int| 0 <= i < earlier.len() implies start.ignores(
            #[trigger] earlier[i],
        ) by {
            assert(earlier[i] == events[i]);
        }
        lemma_ignored_events_change_nothing(start, earlier);
        assert(start.ignores(events[events.len() - 1]));
        assert(replay(start, events).outputs =~= uneventful(start, events.len()).outputs);
    } else {
        assert(replay(start, events).outputs =~= uneventful(start, events.len()).outputs);
    }
}

/// The first resume signal, answered by the host with a window, takes a new
/// controller to exactly one state: with a token it waits for the render
/// state, without one it is ready. Whatever resume signals and window
/// reports follow change nothing.
pub proof fn lemma_resume_takes_effect_once(
    proxy: Option<PendingInitToken>,
    window: WindowHandle,
    again: Seq<Event>,
)
    requires
        forall|i: int|
            0 <= i < again.len() ==> (#[trigger] again[i] is Resumed
                || again[i] is WindowCreated),
    ensures
        ({
            let first = replay(
                AppView::Uninitialized { proxy },
                seq![Event::Resumed, Event::WindowCreated(Some(window))],
            );
            &&& proxy is Some ==> first.state == AppView::AwaitingAsyncInit
            &&& proxy is None ==> first.state == (AppView::Ready {
                state: StateView::fresh(window),
            })
            &&& replay(first.state, again) == uneventful(first.state, again.len())
        }),
{
    let start = AppView::Uninitialized { proxy };
    let events = seq![Event::Resumed, Event::WindowCreated(Some(window))];
    assert(events.drop_last() =~= seq![Event::Resumed]);
    assert(events.drop_last().drop_last() =~= Seq::<Event>::empty());
    assert(replay(start, events.drop_last().drop_last()).state == start);
    assert(replay(start, events.drop_last()).state == start);
    let first = replay(start, events);
    assert(first.state == start.on_window_created(Some(window)).next);
    lemma_ignored_events_change_nothing(first.state, again);
}

/// No run ever takes the controller back: from waiting it does not return
/// to uninitialized, from ready not to waiting, and from shutting down
/// nowhere.
pub proof fn lemma_lifecycle_only_advances(start: AppView, events: Seq<Event>)
    ensures
        progress(start.lifecycle()) <= progress(replay(start, events).state.lifecycle()),
    decreases events.len(),
{
    if events.len() > 0 {
        lemma_lifecycle_only_advances(start, events.drop_last());
    }
}

/// Tokens are neither made nor lost: at every point of every run, the
/// tokens handed to the host and the token still held add up to what the
/// controller began with. So the token leaves the controller at most once,
/// and a controller that began without one never hands one out.
pub proof fn lemma_token_leaves_at_most_once(start: AppView, events: Seq<Event>)
    ensures
        spawns(replay(start, events).outputs) + tokens_held(replay(start, events).state)
            == tokens_held(start),
    decreases events.len(),
{
    let kind = |output: Result<Option<Action>, AppError>| is_spawn(output);
    if events.len() > 0 {
        let before = replay(start, events.drop_last());
        let step = before.state.step(events.last());
        lemma_token_leaves_at_most_once(start, events.drop_last());
        before.outputs.lemma_filter_len_push(kind, step.output);
    } else {
        assert(replay(start, events).outputs.filter(kind).len() == 0) by {
            replay(start, events).outputs.lemma_filter_len(kind);
        }
    }
}

/// The token that comes out of the controller is the one that went in.
pub proof fn lemma_token_keeps_its_identity(start: AppView, events: Seq<Event>, i: int)
    requires
        0 <= i < events.len(),
        is_spawn(replay(start, events).outputs[i]),
    ensures
        replay(start, events).outputs[i] matches Ok(Some(Action::SpawnInit { proxy, .. }))
            && start.proxy() == Some(proxy),
    decreases events.len(),
{
    let earlier = events.drop_last();
    lemma_one_output_per_event(start, earlier);
    if i < earlier.len() {
        lemma_token_keeps_its_identity(start, earlier, i);
    } else {
        lemma_token_stays_until_spawn(start, earlier);
    }
}

/// As long as the controller is uninitialized it holds what it began with.
pub proof fn lemma_token_stays_until_spawn(start: AppView, events: Seq<Event>)
    ensures
        replay(start, events).state is Uninitialized ==> replay(start, events).state == start,
    decreases events.len(),
{
    if events.len() > 0 {
        lemma_token_stays_until_spawn(start, events.drop_last());
    }
}

/// The host is told to leave the event loop at most once, and exactly when
/// the run takes the controller into its final state.
pub proof fn lemma_exit_is_signaled_at_most_once(start: AppView, events: Seq<Event>)
    ensures
        exits(replay(start, events).outputs) == (if replay(start, events).state is ShuttingDown
            && !(start is ShuttingDown) {
            1nat
        } else {
            0nat
        }),
    decreases events.len(),
{
    let kind = |output: Result<Option<Action>, AppError>| is_exit(output);
    if events.len() > 0 {
        let before = replay(start, events.drop_last());
        let step = before.state.step(events.last());
        lemma_exit_is_signaled_at_most_once(start, events.drop_last());
        lemma_lifecycle_only_advances(start, events.drop_last());
        before.outputs.lemma_filter_len_push(kind, step.output);
    } else {
        assert(replay(start, events).outputs.filter(kind).len() == 0) by {
            replay(start, events).outputs.lemma_filter_len(kind);
        }
    }
}

/// Once the controller shuts down, nothing that arrives changes anything.
pub proof fn lemma_shutdown_is_final(events: Seq<Event>)
    ensures
        replay(AppView::ShuttingDown, events) == uneventful(AppView::ShuttingDown, events.len()),
{
    lemma_ignored_events_change_nothing(AppView::ShuttingDown, events);
}

/// A resize that reaches the render state is what the render state reports
/// afterwards, whatever it held before, and the window stays the same.
pub proof fn lemma_resize_is_recorded(state: StateView, size: Size)
    ensures
        state.resized(size).size == Some(size),
        state.resized(size).window == state.window,
        (AppView::Ready { state }).step(Event::Window(WindowEvent::Resized(size))) == (Step {
            next: AppView::Ready { state: state.resized(size) },
            output: Ok(None),
        }),
{
}

} // verus!
