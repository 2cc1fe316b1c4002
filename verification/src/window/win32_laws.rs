//! What holds of a Win32 window over any sequence of window messages, owner
//! close requests and polls.

use vstd::prelude::*;

use super::counting::{lemma_occurrences_concat, lemma_occurrences_single, occurrences};
use super::win32::{
    after_message, after_request_close, size_transition, spec_disposition, spec_handle_parts,
    MessageDisposition, Win32HandleParts, WindowStateView, WM_CLOSE, WM_DESTROY, WM_NCDESTROY, WM_SIZE,
};
use raw_window_handle::HandleError;
use super::WindowEvent;

verus! {

/// One thing that can happen to a Win32 window's state.
pub enum Win32Input {
    /// The window procedure receives a message.
    Message { message: u32, wparam: usize, lparam: isize },
    /// The owner starts closing the window.
    RequestClose,
    /// The owner polls and takes the recorded events.
    Poll,
}

/// Whether `message` is one of the three terminal close notifications.
pub open spec fn is_terminal_message(message: u32) -> bool {
    message == WM_CLOSE || message == WM_DESTROY || message == WM_NCDESTROY
}

/// The events that one input records.
pub open spec fn input_records(v: WindowStateView, input: Win32Input) -> Seq<WindowEvent> {
    match input {
        Win32Input::Message { message, wparam, lparam } => if is_terminal_message(message) {
            if v.close_requested {
                seq![]
            } else {
                seq![WindowEvent::CloseRequested]
            }
        } else if message == WM_SIZE {
            seq![size_transition(v.minimized, wparam, lparam).1]
        } else {
            seq![]
        },
        _ => seq![],
    }
}

/// The events that one input hands out to the owner.
pub open spec fn input_hands_out(v: WindowStateView, input: Win32Input) -> Seq<WindowEvent> {
    match input {
        Win32Input::Poll => v.events,
        _ => seq![],
    }
}

/// The state after one input.
pub open spec fn after_input(v: WindowStateView, input: Win32Input) -> WindowStateView {
    match input {
        Win32Input::Message { message, wparam, lparam } => after_message(v, message, wparam, lparam),
        Win32Input::RequestClose => after_request_close(v),
        Win32Input::Poll => WindowStateView { events: Seq::empty(), ..v },
    }
}

/// The state after a sequence of inputs.
pub open spec fn run_inputs(v: WindowStateView, inputs: Seq<Win32Input>) -> WindowStateView
    decreases inputs.len(),
{
    if inputs.len() == 0 {
        v
    } else {
        after_input(run_inputs(v, inputs.drop_last()), inputs.last())
    }
}

/// Every event recorded during a sequence of inputs, in recording order.
pub open spec fn recorded(v: WindowStateView, inputs: Seq<Win32Input>) -> Seq<WindowEvent>
    decreases inputs.len(),
{
    if inputs.len() == 0 {
        seq![]
    } else {
        recorded(v, inputs.drop_last()) + input_records(run_inputs(v, inputs.drop_last()), inputs.last())
    }
}

/// Every event handed out by the polls of a sequence of inputs, in order.
pub open spec fn handed_out(v: WindowStateView, inputs: Seq<Win32Input>) -> Seq<WindowEvent>
    decreases inputs.len(),
{
    if inputs.len() == 0 {
        seq![]
    } else {
        handed_out(v, inputs.drop_last()) + input_hands_out(
            run_inputs(v, inputs.drop_last()),
            inputs.last(),
        )
    }
}

/// One input appends what it records to the pending events, or a poll empties them.
proof fn lemma_input_events(v: WindowStateView, input: Win32Input)
    ensures
        input is Poll ==> after_input(v, input).events == Seq::<WindowEvent>::empty(),
        !(input is Poll) ==> after_input(v, input).events == v.events + input_records(v, input),
        input_records(v, input).len() <= 1,
        v.close_requested ==> after_input(v, input).close_requested,
        after_input(v, input).close_requested && !v.close_requested && !(input is RequestClose)
            ==> input_records(v, input) == seq![WindowEvent::CloseRequested],
        input_records(v, input).contains(WindowEvent::CloseRequested) ==> !v.close_requested
            && after_input(v, input).close_requested,
{
    match input {
        Win32Input::Message { message, wparam, lparam } => {
            if is_terminal_message(message) {
                if !v.close_requested {
                    assert(v.events.push(WindowEvent::CloseRequested) == v.events + seq![
                        WindowEvent::CloseRequested,
                    ]);
                } else {
                    assert(v.events + seq![] == v.events);
                }
            } else if message == WM_SIZE {
                let event = size_transition(v.minimized, wparam, lparam).1;
                assert(v.events.push(event) == v.events + seq![event]);
                assert(event != WindowEvent::CloseRequested);
                assert(!seq![event].contains(WindowEvent::CloseRequested)) by {
                    if seq![event].contains(WindowEvent::CloseRequested) {
                        assert(seq![event][0] == event);
                    }
                }
            } else {
                assert(v.events + seq![] == v.events);
            }
        },
        Win32Input::RequestClose => {
            assert(v.events + seq![] == v.events);
        },
        Win32Input::Poll => {},
    }
}

/// Every event is handed out in the order it was recorded: what the polls
/// returned, followed by what is still pending, is exactly what was pending at
/// the start followed by everything recorded since.
pub proof fn lemma_events_handed_out_in_recording_order(v: WindowStateView, inputs: Seq<Win32Input>)
    ensures
        handed_out(v, inputs) + run_inputs(v, inputs).events == v.events + recorded(v, inputs),
    decreases inputs.len(),
{
    if inputs.len() == 0 {
        assert(v.events + seq![] == v.events);
        assert(seq![] + v.events == v.events);
    } else {
        let prefix = inputs.drop_last();
        let last = inputs.last();
        let before = run_inputs(v, prefix);
        lemma_events_handed_out_in_recording_order(v, prefix);
        lemma_input_events(before, last);
        if last is Poll {
            assert(input_records(before, last) == Seq::<WindowEvent>::empty());
            assert(recorded(v, inputs) == recorded(v, prefix) + Seq::<WindowEvent>::empty());
            assert(recorded(v, prefix) + Seq::<WindowEvent>::empty() == recorded(v, prefix));
            assert(handed_out(v, inputs) + Seq::<WindowEvent>::empty() == handed_out(v, inputs));
            assert(handed_out(v, inputs) == handed_out(v, prefix) + before.events);
        } else {
            assert(input_hands_out(before, last) == Seq::<WindowEvent>::empty());
            assert(handed_out(v, prefix) + Seq::<WindowEvent>::empty() == handed_out(v, prefix));
            assert(handed_out(v, prefix) + (before.events + input_records(before, last)) == (
            handed_out(v, prefix) + before.events) + input_records(before, last));
            assert((v.events + recorded(v, prefix)) + input_records(before, last) == v.events + (
            recorded(v, prefix) + input_records(before, last)));
        }
    }
}

/// The terminal close event is recorded at most once over the whole life of a
/// window, never after a close was already requested, and only together with
/// the close flag; and when the owner never requested closing, the flag is set
/// exactly when the event was recorded.
pub proof fn lemma_close_recorded_at_most_once(v: WindowStateView, inputs: Seq<Win32Input>)
    ensures
        occurrences(recorded(v, inputs), WindowEvent::CloseRequested) <= 1,
        occurrences(recorded(v, inputs), WindowEvent::CloseRequested) == 1 ==> run_inputs(
            v,
            inputs,
        ).close_requested,
        v.close_requested ==> occurrences(recorded(v, inputs), WindowEvent::CloseRequested) == 0,
        v.close_requested ==> run_inputs(v, inputs).close_requested,
        !v.close_requested && (forall|i: int| 0 <= i < inputs.len() ==> !(inputs[i] is RequestClose))
            ==> (occurrences(recorded(v, inputs), WindowEvent::CloseRequested) == 1 <==> run_inputs(
            v,
            inputs,
        ).close_requested),
    decreases inputs.len(),
{
    if inputs.len() > 0 {
        let prefix = inputs.drop_last();
        let last = inputs.last();
        let before = run_inputs(v, prefix);
        lemma_close_recorded_at_most_once(v, prefix);
        lemma_input_events(before, last);
        lemma_occurrences_concat(recorded(v, prefix), input_records(before, last), WindowEvent::CloseRequested);
        let step = input_records(before, last);
        if step.len() == 1 {
            assert(step == seq![step[0]]);
            lemma_occurrences_single(step[0], WindowEvent::CloseRequested);
            if step[0] == WindowEvent::CloseRequested {
                assert(step.contains(WindowEvent::CloseRequested));
            }
        } else {
            assert(step.len() == 0);
            assert(occurrences(step, WindowEvent::CloseRequested) == 0);
        }
        if !v.close_requested && (forall|i: int| 0 <= i < inputs.len() ==> !(inputs[i] is RequestClose)) {
            assert forall|i: int| 0 <= i < prefix.len() implies !(prefix[i] is RequestClose) by {
                assert(prefix[i] == inputs[i]);
            }
            assert(!(last is RequestClose)) by {
                assert(inputs[inputs.len() - 1] == last);
            }
        }
    }
}

/// `WM_CLOSE`, an externally initiated `WM_DESTROY` and the final
/// `WM_NCDESTROY` may all arrive for one window that was not closing: together
/// they record one terminal event, not three, and forget the HWND.
pub proof fn lemma_terminal_messages_record_one_event(
    v: WindowStateView,
    close: (usize, isize),
    destroy: (usize, isize),
    nc_destroy: (usize, isize),
)
    requires
        !v.close_requested,
    ensures
        ({
            let inputs = seq![
                Win32Input::Message { message: WM_CLOSE, wparam: close.0, lparam: close.1 },
                Win32Input::Message { message: WM_DESTROY, wparam: destroy.0, lparam: destroy.1 },
                Win32Input::Message { message: WM_NCDESTROY, wparam: nc_destroy.0, lparam: nc_destroy.1 },
            ];
            &&& recorded(v, inputs) == seq![WindowEvent::CloseRequested]
            &&& run_inputs(v, inputs).events == v.events.push(WindowEvent::CloseRequested)
            &&& run_inputs(v, inputs).hwnd is None
            &&& run_inputs(v, inputs).close_requested
        }),
{
    let m1 = Win32Input::Message { message: WM_CLOSE, wparam: close.0, lparam: close.1 };
    let m2 = Win32Input::Message { message: WM_DESTROY, wparam: destroy.0, lparam: destroy.1 };
    let m3 = Win32Input::Message { message: WM_NCDESTROY, wparam: nc_destroy.0, lparam: nc_destroy.1 };
    let inputs = seq![m1, m2, m3];
    let one = seq![m1];
    let two = seq![m1, m2];
    assert(inputs.drop_last() == two);
    assert(two.drop_last() == one);
    assert(one.drop_last() == Seq::<Win32Input>::empty());
    assert(run_inputs(v, Seq::<Win32Input>::empty()) == v);
    assert(recorded(v, Seq::<Win32Input>::empty()) == Seq::<WindowEvent>::empty());
    assert(one.last() == m1);
    assert(input_records(v, m1) == seq![WindowEvent::CloseRequested]);
    assert(recorded(v, one) == Seq::<WindowEvent>::empty() + seq![WindowEvent::CloseRequested]);
    assert(run_inputs(v, one).close_requested);
    assert(two.last() == m2);
    assert(inputs.last() == m3);
    assert(Seq::<WindowEvent>::empty() + seq![WindowEvent::CloseRequested] == seq![WindowEvent::CloseRequested]);
    assert(recorded(v, two) == recorded(v, one) + Seq::<WindowEvent>::empty());
    assert(recorded(v, inputs) == recorded(v, two) + Seq::<WindowEvent>::empty());
    assert(seq![WindowEvent::CloseRequested] + Seq::<WindowEvent>::empty() == seq![WindowEvent::CloseRequested]);
}

/// Whether an input is the final native-destruction message.
pub open spec fn is_native_destruction(input: Win32Input) -> bool {
    input matches Win32Input::Message { message, .. } && message == WM_NCDESTROY
}

/// Once native destruction was seen, no input brings the HWND back: the window
/// handle stays unavailable and the window stays closing.
pub proof fn lemma_native_destruction_is_final(v: WindowStateView, inputs: Seq<Win32Input>)
    ensures
        (exists|i: int| 0 <= i < inputs.len() && is_native_destruction(#[trigger] inputs[i])) ==> {
            &&& run_inputs(v, inputs).hwnd is None
            &&& spec_handle_parts(run_inputs(v, inputs)) == Err::<Win32HandleParts, HandleError>(
                HandleError::Unavailable,
            )
            &&& run_inputs(v, inputs).close_requested
        },
    decreases inputs.len(),
{
    if inputs.len() > 0 {
        let prefix = inputs.drop_last();
        let before = run_inputs(v, prefix);
        lemma_native_destruction_is_final(v, prefix);
        lemma_input_events(before, inputs.last());
        if exists|i: int| 0 <= i < inputs.len() && is_native_destruction(#[trigger] inputs[i]) {
            let i = choose|i: int| 0 <= i < inputs.len() && is_native_destruction(#[trigger] inputs[i]);
            if i < prefix.len() {
                assert(is_native_destruction(prefix[i]));
            } else {
                assert(inputs.last() == inputs[i]);
            }
        }
    }
}

/// Whether an event is one of the size transitions of `WM_SIZE`.
pub open spec fn is_size_event(event: WindowEvent) -> bool {
    event is Resized || event is Restored || event is Minimized
}

/// The most recent size transition in a stream of events.
pub open spec fn last_size_event(events: Seq<WindowEvent>) -> Option<WindowEvent>
    decreases events.len(),
{
    if events.len() == 0 {
        None
    } else if is_size_event(events.last()) {
        Some(events.last())
    } else {
        last_size_event(events.drop_last())
    }
}

/// Appending events that are not size transitions keeps the last one.
proof fn lemma_last_size_event_append(events: Seq<WindowEvent>, more: Seq<WindowEvent>)
    ensures
        more.len() == 1 && is_size_event(more[0]) ==> last_size_event(events + more) == Some(more[0]),
        (forall|i: int| 0 <= i < more.len() ==> !is_size_event(#[trigger] more[i])) ==> last_size_event(events + more)
            == last_size_event(events),
    decreases more.len(),
{
    if more.len() == 0 {
        assert(events + more == events);
    } else {
        assert((events + more).drop_last() == events + more.drop_last());
        assert((events + more).last() == more.last());
        lemma_last_size_event_append(events, more.drop_last());
        if forall|i: int| 0 <= i < more.len() ==> !is_size_event(#[trigger] more[i]) {
            assert(!is_size_event(more[more.len() - 1]));
            assert forall|i: int| 0 <= i < more.drop_last().len() implies !is_size_event(
                #[trigger] more.drop_last()[i],
            ) by {
                assert(more.drop_last()[i] == more[i]);
            }
        }
        if more.len() == 1 {
            assert(more.drop_last().len() == 0);
        }
    }
}

/// The minimized flag of a window that started unminimized says whether the
/// most recent size transition recorded was a minimization.
pub proof fn lemma_minimized_tracks_last_size_event(v: WindowStateView, inputs: Seq<Win32Input>)
    requires
        !v.minimized,
    ensures
        run_inputs(v, inputs).minimized <==> last_size_event(recorded(v, inputs)) == Some(
            WindowEvent::Minimized,
        ),
    decreases inputs.len(),
{
    if inputs.len() > 0 {
        let prefix = inputs.drop_last();
        let last = inputs.last();
        let before = run_inputs(v, prefix);
        lemma_minimized_tracks_last_size_event(v, prefix);
        let step = input_records(before, last);
        lemma_last_size_event_append(recorded(v, prefix), step);
        match last {
            Win32Input::Message { message, wparam, lparam } => {
                if is_terminal_message(message) {
                    assert(step.len() == 0 || step == seq![WindowEvent::CloseRequested]);
                    assert forall|i: int| 0 <= i < step.len() implies !is_size_event(#[trigger] step[i]) by {
                        assert(step[i] == WindowEvent::CloseRequested);
                    }
                } else if message == WM_SIZE {
                    assert(step.len() == 1 && is_size_event(step[0]));
                } else {
                    assert(step.len() == 0);
                }
            },
            _ => {
                assert(step.len() == 0);
            },
        }
    } else {
        assert(recorded(v, inputs).len() == 0);
    }
}

/// Every recorded `Restored` directly follows a recorded `Minimized` among the
/// size transitions, when the window started unminimized: an ordinary
/// `SIZE_RESTORED` resize is never reported as a restore.
pub proof fn lemma_restore_follows_minimize(v: WindowStateView, inputs: Seq<Win32Input>)
    requires
        !v.minimized,
    ensures
        forall|i: int|
            0 <= i < recorded(v, inputs).len() && #[trigger] recorded(v, inputs)[i] is Restored
                ==> last_size_event(recorded(v, inputs).take(i)) == Some(WindowEvent::Minimized),
    decreases inputs.len(),
{
    if inputs.len() > 0 {
        let prefix = inputs.drop_last();
        let last = inputs.last();
        let before = run_inputs(v, prefix);
        let earlier = recorded(v, prefix);
        let step = input_records(before, last);
        let all = recorded(v, inputs);
        lemma_restore_follows_minimize(v, prefix);
        lemma_minimized_tracks_last_size_event(v, prefix);
        lemma_input_events(before, last);
        assert(all == earlier + step);
        assert forall|i: int| 0 <= i < all.len() && #[trigger] all[i] is Restored implies last_size_event(
            all.take(i),
        ) == Some(WindowEvent::Minimized) by {
            if i < earlier.len() {
                assert(all.take(i) == earlier.take(i));
                assert(all[i] == earlier[i]);
            } else {
                assert(i == earlier.len());
                assert(all.take(i) == earlier);
                assert(all[i] == step[0]);
                match last {
                    Win32Input::Message { message, wparam, lparam } => {
                        if is_terminal_message(message) {
                            assert(step[0] == WindowEvent::CloseRequested);
                        } else if message == WM_SIZE {
                            assert(before.minimized);
                        }
                    },
                    _ => {},
                }
            }
        }
    }
}

/// The window procedure consumes exactly the messages it acts on: the three
/// terminal close notifications and `WM_SIZE`. Every other message, system
/// commands such as the title bar's close, minimize and maximize among them,
/// goes to the default procedure and leaves the window's state as it was.
pub proof fn lemma_only_acted_on_messages_are_consumed(v: WindowStateView, message: u32, wparam: usize, lparam: isize)
    ensures
        spec_disposition(message) == MessageDisposition::Handled <==> (is_terminal_message(message)
            || message == WM_SIZE),
        spec_disposition(message) == MessageDisposition::Default ==> after_message(
            v,
            message,
            wparam,
            lparam,
        ) == v,
{
}

} // verus!
