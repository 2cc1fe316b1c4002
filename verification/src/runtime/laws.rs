//! What holds of the runtime's event stream over any sequence of platform
//! callbacks.

use vstd::prelude::*;

use super::lifecycle::{
    input_fits, runtime_step, spec_translate, window_after, PlatformWindowEvent, RuntimeInput,
};
use super::host::{event_callbacks, events_of, step_callbacks, AppCallback, HostApplication, Runner};
use crate::window::WindowEvent;

verus! {

/// The drawable's liveness after a sequence of callbacks.
pub open spec fn runtime_live(live: bool, inputs: Seq<RuntimeInput>) -> bool
    decreases inputs.len(),
{
    if inputs.len() == 0 {
        live
    } else {
        runtime_step(runtime_live(live, inputs.drop_last()), inputs.last()).0
    }
}

/// Every event delivered during a sequence of callbacks, in order.
pub open spec fn runtime_delivered(live: bool, inputs: Seq<RuntimeInput>) -> Seq<WindowEvent>
    decreases inputs.len(),
{
    if inputs.len() == 0 {
        seq![]
    } else {
        runtime_delivered(live, inputs.drop_last()) + runtime_step(
            runtime_live(live, inputs.drop_last()),
            inputs.last(),
        ).1
    }
}

/// Every callback the application receives while a sequence of platform
/// callbacks is answered, in order.
pub open spec fn runtime_callbacks(inputs: Seq<RuntimeInput>) -> Seq<AppCallback>
    decreases inputs.len(),
{
    if inputs.len() == 0 {
        seq![]
    } else {
        runtime_callbacks(inputs.drop_last()) + step_callbacks(
            runtime_live(false, inputs.drop_last()),
            inputs.last(),
        )
    }
}

proof fn lemma_events_of_concat(a: Seq<AppCallback>, b: Seq<AppCallback>)
    ensures
        events_of(a + b) == events_of(a) + events_of(b),
    decreases b.len(),
{
    if b.len() == 0 {
        assert(a + b == a);
        assert(events_of(a) + Seq::<WindowEvent>::empty() == events_of(a));
    } else {
        lemma_events_of_concat(a, b.drop_last());
        assert((a + b).drop_last() == a + b.drop_last());
        assert((a + b).last() == b.last());
        match b.last() {
            AppCallback::Event(e) => {
                assert((events_of(a) + events_of(b.drop_last())).push(e) == events_of(a) + events_of(
                    b.drop_last(),
                ).push(e));
            },
            AppCallback::Resumed => {},
        }
    }
}

proof fn lemma_events_of_event_callbacks(events: Seq<WindowEvent>)
    ensures
        events_of(event_callbacks(events)) == events,
    decreases events.len(),
{
    if events.len() > 0 {
        lemma_events_of_event_callbacks(events.drop_last());
        assert(event_callbacks(events).drop_last() == event_callbacks(events.drop_last()));
        assert(events.drop_last().push(events.last()) == events);
    } else {
        assert(event_callbacks(events).len() == 0);
    }
}

/// The events among the callbacks the application receives are exactly the
/// events the runtime decides to deliver.
pub proof fn lemma_callbacks_carry_the_events(inputs: Seq<RuntimeInput>)
    ensures
        events_of(runtime_callbacks(inputs)) == runtime_delivered(false, inputs),
    decreases inputs.len(),
{
    if inputs.len() > 0 {
        let prefix = inputs.drop_last();
        let live = runtime_live(false, prefix);
        let input = inputs.last();
        let step = runtime_step(live, input).1;
        lemma_callbacks_carry_the_events(prefix);
        lemma_events_of_concat(runtime_callbacks(prefix), step_callbacks(live, input));
        lemma_events_of_event_callbacks(step);
        if input is Resumed {
            lemma_events_of_concat(seq![AppCallback::Resumed], event_callbacks(step));
            assert(seq![AppCallback::Resumed].drop_last() == Seq::<AppCallback>::empty());
            assert(seq![AppCallback::Resumed].last() == AppCallback::Resumed);
            assert(events_of(Seq::<AppCallback>::empty()) == Seq::<WindowEvent>::empty());
            assert(events_of(seq![AppCallback::Resumed]) == Seq::<WindowEvent>::empty());
            assert(Seq::<WindowEvent>::empty() + step == step);
        }
    }
}

/// Whether the application holds a window after a sequence of callbacks,
/// starting without one.
pub open spec fn runtime_window(inputs: Seq<RuntimeInput>) -> bool
    decreases inputs.len(),
{
    if inputs.len() == 0 {
        false
    } else {
        window_after(runtime_window(inputs.drop_last()), inputs.last())
    }
}

/// Whether every callback of a sequence fits the window state before it.
pub open spec fn valid_inputs(inputs: Seq<RuntimeInput>) -> bool
    decreases inputs.len(),
{
    if inputs.len() == 0 {
        true
    } else {
        valid_inputs(inputs.drop_last()) && input_fits(runtime_window(inputs.drop_last()), inputs.last())
    }
}

/// Over any fitting sequence of callbacks from the start: a live drawable
/// belongs to an existing window, a window has been announced, and the first
/// event the application receives announces its drawable; so no suspension,
/// resume or window event reaches the application before `SurfaceCreated`.
pub proof fn lemma_first_event_announces_the_drawable(inputs: Seq<RuntimeInput>)
    requires
        valid_inputs(inputs),
    ensures
        runtime_live(false, inputs) ==> runtime_window(inputs),
        runtime_window(inputs) ==> runtime_delivered(false, inputs).len() > 0,
        runtime_delivered(false, inputs).len() > 0 ==> runtime_delivered(false, inputs)[0]
            == WindowEvent::SurfaceCreated,
    decreases inputs.len(),
{
    if inputs.len() > 0 {
        let prefix = inputs.drop_last();
        let before = runtime_delivered(false, prefix);
        let live = runtime_live(false, prefix);
        let step = runtime_step(live, inputs.last()).1;
        lemma_first_event_announces_the_drawable(prefix);
        assert(runtime_delivered(false, inputs) == before + step);
        if before.len() == 0 && step.len() > 0 {
            assert((before + step)[0] == step[0]);
        }
        if before.len() > 0 {
            assert((before + step)[0] == before[0]);
        }
    }
}

/// Whether every callback of a sequence is a `resumed` callback.
pub open spec fn only_resumes(callbacks: Seq<AppCallback>) -> bool {
    forall|i: int| 0 <= i < callbacks.len() ==> #[trigger] callbacks[i] is Resumed
}

/// Index `j` of the callbacks of `inputs` is a window event and none comes
/// before it.
pub open spec fn is_first_event(inputs: Seq<RuntimeInput>, j: int) -> bool {
    &&& 0 <= j < runtime_callbacks(inputs).len()
    &&& runtime_callbacks(inputs)[j] is Event
    &&& only_resumes(runtime_callbacks(inputs).take(j))
}

/// The first window event, at index `j` of the callbacks of `inputs`, is
/// `SurfaceCreated`, and right before it stands the `resumed` callback of the
/// resume, the `k`-th input, whose callback left the application a window
/// where it had none.
pub open spec fn first_event_follows_resume(inputs: Seq<RuntimeInput>, j: int, k: int) -> bool {
    &&& 0 <= k < inputs.len()
    &&& inputs[k] == (RuntimeInput::Resumed { has_window: true })
    &&& !runtime_window(inputs.take(k))
    &&& runtime_callbacks(inputs.take(k)).len() == j - 1
    &&& runtime_callbacks(inputs)[j - 1] is Resumed
    &&& runtime_callbacks(inputs)[j] == AppCallback::Event(WindowEvent::SurfaceCreated)
}

/// Over any fitting sequence of callbacks from the start: until the
/// application holds a window it receives only `resumed` callbacks, and once
/// it holds one it has received a window event. The first window event it
/// receives is `SurfaceCreated`, handed over right after the `resumed`
/// callback that created its window.
pub proof fn lemma_first_event_follows_creating_resume(inputs: Seq<RuntimeInput>)
    requires
        valid_inputs(inputs),
    ensures
        runtime_window(inputs) <==> !only_resumes(runtime_callbacks(inputs)),
        forall|j: int| #[trigger] is_first_event(inputs, j) ==> exists|k: int|
            first_event_follows_resume(inputs, j, k),
    decreases inputs.len(),
{
    if inputs.len() == 0 {
        assert(runtime_callbacks(inputs).len() == 0);
    } else {
        let prefix = inputs.drop_last();
        let input = inputs.last();
        let before = runtime_callbacks(prefix);
        let live = runtime_live(false, prefix);
        let step = step_callbacks(live, input);
        let all = runtime_callbacks(inputs);
        lemma_first_event_follows_creating_resume(prefix);
        lemma_first_event_announces_the_drawable(prefix);
        assert(all == before + step);
        assert(inputs.take(prefix.len() as int) == prefix);
        let created = seq![WindowEvent::SurfaceCreated, WindowEvent::Resumed];
        if !runtime_window(prefix) {
            assert(!live);
            match input {
                RuntimeInput::Resumed { has_window } => {
                    if has_window {
                        assert(runtime_step(live, input).1 == created);
                        assert(step == seq![AppCallback::Resumed] + event_callbacks(created));
                        assert(step[1] == AppCallback::Event(WindowEvent::SurfaceCreated));
                        assert(all[before.len() + 1int] == step[1]);
                    } else {
                        assert(runtime_step(live, input).1 == Seq::<WindowEvent>::empty());
                        assert(step == seq![AppCallback::Resumed]);
                    }
                },
                RuntimeInput::Suspended { .. } => {
                    assert(step.len() == 0);
                },
                RuntimeInput::Window { .. } => {
                    assert(step.len() == 0);
                },
                RuntimeInput::Exiting => {
                    assert(step.len() == 0);
                },
            }
            if !runtime_window(inputs) {
                assert forall|i: int| 0 <= i < all.len() implies #[trigger] all[i] is Resumed by {
                    if i < before.len() {
                        assert(all[i] == before[i]);
                    } else {
                        assert(all[i] == step[i - before.len()]);
                    }
                }
            } else {
                assert(!(all[before.len() + 1int] is Resumed));
            }
        } else {
            let i = choose|i: int| 0 <= i < before.len() && !(#[trigger] before[i] is Resumed);
            assert(all[i] == before[i]);
        }
        assert forall|j: int| #[trigger] is_first_event(inputs, j) implies exists|k: int|
            first_event_follows_resume(inputs, j, k) by {
            if j < before.len() {
                assert(all.take(j) == before.take(j));
                assert(all[j] == before[j]);
                assert(is_first_event(prefix, j));
                let k = choose|k: int| first_event_follows_resume(prefix, j, k);
                assert(inputs.take(k) == prefix.take(k));
                assert(all[j - 1] == before[j - 1]);
                assert(first_event_follows_resume(inputs, j, k));
            } else {
                assert forall|i: int| 0 <= i < before.len() implies #[trigger] before[i] is Resumed by {
                    assert(all.take(j)[i] == before[i]);
                }
                assert(!runtime_window(prefix));
                assert(all[j] == step[j - before.len()]);
                assert(input == RuntimeInput::Resumed { has_window: true });
                assert(runtime_step(live, input).1 == created);
                assert(step == seq![AppCallback::Resumed] + event_callbacks(created));
                assert(step[0] is Resumed);
                if j == before.len() {
                    assert(false);
                }
                if j > before.len() + 1 {
                    assert(all.take(j)[before.len() + 1int] == step[1]);
                    assert(false);
                }
                assert(all[j - 1] == step[0]);
                assert(first_event_follows_resume(inputs, j, prefix.len() as int));
            }
        }
    }
}

/// Whether an event opens or closes a drawable interval.
pub open spec fn is_surface_event(event: WindowEvent) -> bool {
    event == WindowEvent::SurfaceCreated || event == WindowEvent::SurfaceDestroyed
}

/// The drawable-interval events of a stream, in order.
pub open spec fn surface_events(events: Seq<WindowEvent>) -> Seq<WindowEvent>
    decreases events.len(),
{
    if events.len() == 0 {
        seq![]
    } else if is_surface_event(events.last()) {
        surface_events(events.drop_last()).push(events.last())
    } else {
        surface_events(events.drop_last())
    }
}

/// Whether a stream of interval events opens and closes intervals in turn,
/// starting with an opening.
pub open spec fn intervals_alternate(events: Seq<WindowEvent>) -> bool {
    forall|i: int|
        0 <= i < events.len() ==> #[trigger] events[i] == if i % 2 == 0 {
            WindowEvent::SurfaceCreated
        } else {
            WindowEvent::SurfaceDestroyed
        }
}

proof fn lemma_surface_events_concat(a: Seq<WindowEvent>, b: Seq<WindowEvent>)
    ensures
        surface_events(a + b) == surface_events(a) + surface_events(b),
    decreases b.len(),
{
    if b.len() == 0 {
        assert(a + b == a);
        assert(surface_events(a) + Seq::<WindowEvent>::empty() == surface_events(a));
    } else {
        lemma_surface_events_concat(a, b.drop_last());
        assert((a + b).drop_last() == a + b.drop_last());
        assert((a + b).last() == b.last());
        if is_surface_event(b.last()) {
            assert((surface_events(a) + surface_events(b.drop_last())).push(b.last()) == surface_events(a) + surface_events(b.drop_last()).push(b.last()));
        }
    }
}

proof fn lemma_surface_events_single(event: WindowEvent)
    ensures
        surface_events(seq![event]) == if is_surface_event(event) {
            seq![event]
        } else {
            Seq::<WindowEvent>::empty()
        },
{
    assert(seq![event].drop_last() == Seq::<WindowEvent>::empty());
    assert(seq![event].last() == event);
    assert(surface_events(Seq::<WindowEvent>::empty()) == Seq::<WindowEvent>::empty());
    assert(Seq::<WindowEvent>::empty().push(event) == seq![event]);
}

/// The interval events that one callback delivers, given the liveness before it.
proof fn lemma_step_surface_events(live: bool, input: RuntimeInput)
    ensures
        surface_events(runtime_step(live, input).1) == if !live && runtime_step(live, input).0 {
            seq![WindowEvent::SurfaceCreated]
        } else if live && !runtime_step(live, input).0 {
            seq![WindowEvent::SurfaceDestroyed]
        } else {
            Seq::<WindowEvent>::empty()
        },
{
    let created = WindowEvent::SurfaceCreated;
    let destroyed = WindowEvent::SurfaceDestroyed;
    lemma_surface_events_single(created);
    lemma_surface_events_single(destroyed);
    lemma_surface_events_single(WindowEvent::Resumed);
    lemma_surface_events_single(WindowEvent::Suspended);
    assert(surface_events(Seq::<WindowEvent>::empty()) == Seq::<WindowEvent>::empty());
    match input {
        RuntimeInput::Resumed { has_window } => {
            if has_window && !live {
                assert(seq![created, WindowEvent::Resumed] == seq![created] + seq![WindowEvent::Resumed]);
                lemma_surface_events_concat(seq![created], seq![WindowEvent::Resumed]);
                assert(seq![created] + Seq::<WindowEvent>::empty() == seq![created]);
            }
        },
        RuntimeInput::Suspended { has_window } => {
            if has_window && live {
                assert(seq![WindowEvent::Suspended].push(destroyed) == seq![WindowEvent::Suspended] + seq![destroyed]);
                lemma_surface_events_concat(seq![WindowEvent::Suspended], seq![destroyed]);
                assert(Seq::<WindowEvent>::empty() + seq![destroyed] == seq![destroyed]);
            } else if live {
                assert(Seq::<WindowEvent>::empty().push(destroyed) == seq![destroyed]);
            }
        },
        RuntimeInput::Window { own_window, event } => {
            match spec_translate(own_window, event).0 {
                Some(e) => {
                    lemma_surface_events_single(e);
                    assert(!is_surface_event(e));
                },
                None => {},
            }
        },
        RuntimeInput::Exiting => {},
    }
}

/// Drawable intervals never overlap: starting with no live drawable, the
/// delivered stream announces a drawable, revokes it, announces the next one,
/// and so on, and the drawable is live exactly while the last interval is
/// open. After the loop exits no drawable is live.
pub proof fn lemma_surface_intervals_alternate(inputs: Seq<RuntimeInput>)
    ensures
        intervals_alternate(surface_events(runtime_delivered(false, inputs))),
        runtime_live(false, inputs) <==> surface_events(runtime_delivered(false, inputs)).len() % 2 == 1,
        inputs.len() > 0 && inputs.last() is Exiting ==> !runtime_live(false, inputs),
    decreases inputs.len(),
{
    if inputs.len() > 0 {
        let prefix = inputs.drop_last();
        let before = runtime_live(false, prefix);
        let earlier = surface_events(runtime_delivered(false, prefix));
        lemma_surface_intervals_alternate(prefix);
        lemma_step_surface_events(before, inputs.last());
        lemma_surface_events_concat(runtime_delivered(false, prefix), runtime_step(before, inputs.last()).1);
        let now = surface_events(runtime_delivered(false, inputs));
        assert forall|i: int| 0 <= i < now.len() implies #[trigger] now[i] == if i % 2 == 0 {
            WindowEvent::SurfaceCreated
        } else {
            WindowEvent::SurfaceDestroyed
        } by {
            if i < earlier.len() {
                assert(now[i] == earlier[i]);
            }
        }
    }
}

/// A runner driven from its start hands the application non-overlapping
/// drawable intervals: the events the application received from it announce a drawable, revokes it, announces the
/// next one, and so on, and its drawable is live exactly while the last
/// interval is open. The first event it delivers announces the drawable, right
/// after the `resumed` callback that created the window, and a live drawable
/// belongs to the application's window.
pub proof fn lemma_runner_intervals_alternate<A: HostApplication>(runner: &Runner<A>)
    requires
        runner.follows_inputs(),
    ensures
        intervals_alternate(surface_events(runner.delivered())),
        runner.surface_live() <==> surface_events(runner.delivered()).len() % 2 == 1,
        runner.delivered().len() > 0 ==> runner.delivered()[0] == WindowEvent::SurfaceCreated,
        runner.surface_live() ==> runner.has_window(),
        runner.received() == runtime_callbacks(runner.inputs()),
        forall|j: int| #[trigger] is_first_event(runner.inputs(), j) ==> exists|k: int|
            first_event_follows_resume(runner.inputs(), j, k),
{
    lemma_first_event_follows_creating_resume(runner.inputs());
    lemma_surface_intervals_alternate(runner.inputs());
    lemma_first_event_announces_the_drawable(runner.inputs());
    lemma_callbacks_carry_the_events(runner.inputs());
    let before = runner.received_before();
    assert((before + runtime_callbacks(runner.inputs())).skip(before.len() as int) == runtime_callbacks(
        runner.inputs(),
    ));
}

/// The application's window events reach it only from its own window. Of its
/// own window, a resize of any size, zero sides included, is forwarded with
/// that size and does not stop the loop; a redraw request is forwarded and
/// does not stop the loop; a close request is forwarded and stops the loop;
/// any other event is dropped.
pub proof fn lemma_close_request_stops_loop(event: PlatformWindowEvent)
    ensures
        spec_translate(false, event) == (None::<WindowEvent>, false),
        event == PlatformWindowEvent::CloseRequested ==> spec_translate(true, event) == (
            Some(WindowEvent::CloseRequested),
            true,
        ),
        spec_translate(true, event).1 ==> event == PlatformWindowEvent::CloseRequested,
        forall|width: u32, height: u32|
            #[trigger] spec_translate(true, (PlatformWindowEvent::Resized { width, height })) == (
                Some(WindowEvent::Resized { width, height }),
                false,
            ),
        spec_translate(true, PlatformWindowEvent::RedrawRequested) == (
            Some(WindowEvent::RedrawRequested),
            false,
        ),
        spec_translate(true, PlatformWindowEvent::Other) == (None::<WindowEvent>, false),
{
}

/// A resume whose `resumed` callback leaves the application its first window
/// hands it that callback, then `SurfaceCreated`, then `Resumed`.
pub proof fn lemma_created_window_is_announced(inputs: Seq<RuntimeInput>)
    requires
        valid_inputs(inputs),
        !runtime_window(inputs),
    ensures
        runtime_callbacks(inputs.push(RuntimeInput::Resumed { has_window: true })) == runtime_callbacks(
            inputs,
        ) + seq![
            AppCallback::Resumed,
            AppCallback::Event(WindowEvent::SurfaceCreated),
            AppCallback::Event(WindowEvent::Resumed),
        ],
{
    let next = inputs.push(RuntimeInput::Resumed { has_window: true });
    lemma_first_event_announces_the_drawable(inputs);
    assert(next.drop_last() == inputs);
    let created = seq![WindowEvent::SurfaceCreated, WindowEvent::Resumed];
    assert(runtime_step(false, RuntimeInput::Resumed { has_window: true }).1 == created);
    assert(event_callbacks(created) == seq![
        AppCallback::Event(WindowEvent::SurfaceCreated),
        AppCallback::Event(WindowEvent::Resumed),
    ]);
    assert(seq![AppCallback::Resumed] + event_callbacks(created) == seq![
        AppCallback::Resumed,
        AppCallback::Event(WindowEvent::SurfaceCreated),
        AppCallback::Event(WindowEvent::Resumed),
    ]);
}

} // verus!
