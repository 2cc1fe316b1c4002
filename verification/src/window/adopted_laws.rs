//! What holds of an adopted drawable over any sequence of platform callbacks,
//! owner closes and polls.

use vstd::prelude::*;

use super::adopted::{adopted_view, after_close, after_record, after_surface_destroyed, AdoptedWindowView};
use super::counting::{lemma_occurrences_concat, lemma_occurrences_single, occurrences};
use super::WindowEvent;

verus! {

/// One thing that can happen to an adopted drawable.
pub enum AdoptedInput {
    /// The platform reports a new drawable extent.
    Resize { width: u32, height: u32 },
    /// The platform asks for a frame.
    Redraw,
    /// The platform suspends foreground rendering.
    Suspend,
    /// The platform resumes foreground rendering.
    Resume,
    /// The platform revokes the drawable.
    SurfaceDestroyed,
    /// The owner closes the host object.
    Close,
    /// The owner polls and takes the recorded events.
    Poll,
}

/// The events that one input records.
pub open spec fn adopted_input_records<H>(v: AdoptedWindowView<H>, input: AdoptedInput) -> Seq<WindowEvent> {
    let destroyed = if v.native is Some {
        seq![WindowEvent::SurfaceDestroyed]
    } else {
        seq![]
    };
    match input {
        AdoptedInput::Resize { width, height } => seq![WindowEvent::Resized { width, height }],
        AdoptedInput::Redraw => seq![WindowEvent::RedrawRequested],
        AdoptedInput::Suspend => seq![WindowEvent::Suspended],
        AdoptedInput::Resume => seq![WindowEvent::Resumed],
        AdoptedInput::SurfaceDestroyed => destroyed,
        AdoptedInput::Close => if v.close_requested {
            destroyed
        } else {
            seq![WindowEvent::CloseRequested] + destroyed
        },
        AdoptedInput::Poll => seq![],
    }
}

/// The state after one input.
pub open spec fn adopted_after_input<H>(v: AdoptedWindowView<H>, input: AdoptedInput) -> AdoptedWindowView<H> {
    match input {
        AdoptedInput::Resize { width, height } => after_record(v, WindowEvent::Resized { width, height }),
        AdoptedInput::Redraw => after_record(v, WindowEvent::RedrawRequested),
        AdoptedInput::Suspend => after_record(v, WindowEvent::Suspended),
        AdoptedInput::Resume => after_record(v, WindowEvent::Resumed),
        AdoptedInput::SurfaceDestroyed => after_surface_destroyed(v),
        AdoptedInput::Close => after_close(v),
        AdoptedInput::Poll => AdoptedWindowView { events: Seq::empty(), ..v },
    }
}

/// The state after a sequence of inputs.
pub open spec fn adopted_run<H>(v: AdoptedWindowView<H>, inputs: Seq<AdoptedInput>) -> AdoptedWindowView<H>
    decreases inputs.len(),
{
    if inputs.len() == 0 {
        v
    } else {
        adopted_after_input(adopted_run(v, inputs.drop_last()), inputs.last())
    }
}

/// Every event recorded during a sequence of inputs, in recording order.
pub open spec fn adopted_recorded<H>(v: AdoptedWindowView<H>, inputs: Seq<AdoptedInput>) -> Seq<WindowEvent>
    decreases inputs.len(),
{
    if inputs.len() == 0 {
        seq![]
    } else {
        adopted_recorded(v, inputs.drop_last()) + adopted_input_records(
            adopted_run(v, inputs.drop_last()),
            inputs.last(),
        )
    }
}

/// Every event handed out by the polls of a sequence of inputs, in order.
pub open spec fn adopted_handed_out<H>(v: AdoptedWindowView<H>, inputs: Seq<AdoptedInput>) -> Seq<WindowEvent>
    decreases inputs.len(),
{
    if inputs.len() == 0 {
        seq![]
    } else {
        adopted_handed_out(v, inputs.drop_last()) + match inputs.last() {
            AdoptedInput::Poll => adopted_run(v, inputs.drop_last()).events,
            _ => seq![],
        }
    }
}

/// Everything a drawable adopted with `native` reports over a sequence of
/// inputs: its creation, then what the inputs recorded.
pub open spec fn adopted_lifetime_events<H>(native: H, inputs: Seq<AdoptedInput>) -> Seq<WindowEvent> {
    seq![WindowEvent::SurfaceCreated] + adopted_recorded(adopted_view(native), inputs)
}

proof fn lemma_adopted_step<H>(v: AdoptedWindowView<H>, input: AdoptedInput)
    ensures
        input is Poll ==> adopted_after_input(v, input).events == Seq::<WindowEvent>::empty(),
        !(input is Poll) ==> adopted_after_input(v, input).events == v.events + adopted_input_records(
            v,
            input,
        ),
        occurrences(adopted_input_records(v, input), WindowEvent::SurfaceDestroyed) == if v.native is Some
            && adopted_after_input(v, input).native is None {
            1nat
        } else {
            0nat
        },
        v.native is None ==> adopted_after_input(v, input).native is None,
        adopted_after_input(v, input).native is Some ==> adopted_after_input(v, input).native == v.native,
        adopted_after_input(v, input).native is Some <==> v.native is Some && !(input is SurfaceDestroyed)
            && !(input is Close),
        occurrences(adopted_input_records(v, input), WindowEvent::CloseRequested) == if !v.close_requested
            && adopted_after_input(v, input).close_requested {
            1nat
        } else {
            0nat
        },
        v.close_requested ==> adopted_after_input(v, input).close_requested,
        input is Close ==> adopted_after_input(v, input).native is None && adopted_after_input(
            v,
            input,
        ).close_requested,
{
    let sd = WindowEvent::SurfaceDestroyed;
    let cr = WindowEvent::CloseRequested;
    let destroyed = if v.native is Some {
        seq![sd]
    } else {
        seq![]
    };
    assert(occurrences(Seq::<WindowEvent>::empty(), sd) == 0);
    assert(occurrences(Seq::<WindowEvent>::empty(), cr) == 0);
    lemma_occurrences_single(sd, sd);
    lemma_occurrences_single(sd, cr);
    lemma_occurrences_single(cr, sd);
    lemma_occurrences_single(cr, cr);
    match input {
        AdoptedInput::Resize { width, height } => {
            let e = WindowEvent::Resized { width, height };
            lemma_occurrences_single(e, sd);
            lemma_occurrences_single(e, cr);
            assert(v.events.push(e) == v.events + seq![e]);
        },
        AdoptedInput::Redraw => {
            let e = WindowEvent::RedrawRequested;
            lemma_occurrences_single(e, sd);
            lemma_occurrences_single(e, cr);
            assert(v.events.push(e) == v.events + seq![e]);
        },
        AdoptedInput::Suspend => {
            let e = WindowEvent::Suspended;
            lemma_occurrences_single(e, sd);
            lemma_occurrences_single(e, cr);
            assert(v.events.push(e) == v.events + seq![e]);
        },
        AdoptedInput::Resume => {
            let e = WindowEvent::Resumed;
            lemma_occurrences_single(e, sd);
            lemma_occurrences_single(e, cr);
            assert(v.events.push(e) == v.events + seq![e]);
        },
        AdoptedInput::SurfaceDestroyed => {
            assert(v.events.push(sd) == v.events + seq![sd]);
            assert(v.events + seq![] == v.events);
        },
        AdoptedInput::Close => {
            lemma_occurrences_concat(seq![cr], destroyed, sd);
            lemma_occurrences_concat(seq![cr], destroyed, cr);
            assert(v.events.push(sd) == v.events + seq![sd]);
            assert(v.events + seq![] == v.events);
            assert(v.events.push(cr) == v.events + seq![cr]);
            assert(v.events.push(cr).push(sd) == v.events + (seq![cr] + seq![sd]));
            assert(seq![cr] + seq![] == seq![cr]);
        },
        AdoptedInput::Poll => {},
    }
}

/// Over the whole life of an adopted drawable: the platform's revocation is
/// reported at most once, and the drawable is handed out exactly until it has
/// been reported; the owner's close is reported at most once, and exactly when
/// the object is closed; it is handed out exactly while neither a revocation
/// nor a close came, and then it is the adopted drawable;
/// after a close the drawable is no longer handed out;
/// and polls hand out everything in callback order.
pub proof fn lemma_adopted_lifetime<H>(native: H, inputs: Seq<AdoptedInput>)
    ensures
        occurrences(adopted_lifetime_events(native, inputs), WindowEvent::SurfaceDestroyed) <= 1,
        adopted_run(adopted_view(native), inputs).native is Some <==> occurrences(
            adopted_lifetime_events(native, inputs),
            WindowEvent::SurfaceDestroyed,
        ) == 0,
        occurrences(adopted_lifetime_events(native, inputs), WindowEvent::CloseRequested) <= 1,
        adopted_run(adopted_view(native), inputs).close_requested <==> occurrences(
            adopted_lifetime_events(native, inputs),
            WindowEvent::CloseRequested,
        ) == 1,
        adopted_run(adopted_view(native), inputs).native is Some <==> forall|i: int|
            0 <= i < inputs.len() ==> !(#[trigger] inputs[i] is SurfaceDestroyed) && !(inputs[i] is Close),
        adopted_run(adopted_view(native), inputs).native is Some ==> adopted_run(
            adopted_view(native),
            inputs,
        ).native == Some(native),
        (exists|i: int| 0 <= i < inputs.len() && #[trigger] inputs[i] is Close) ==> adopted_run(
            adopted_view(native),
            inputs,
        ).native is None,
        adopted_handed_out(adopted_view(native), inputs) + adopted_run(adopted_view(native), inputs).events
            == adopted_lifetime_events(native, inputs),
    decreases inputs.len(),
{
    let v0 = adopted_view(native);
    let sd = WindowEvent::SurfaceDestroyed;
    let cr = WindowEvent::CloseRequested;
    lemma_occurrences_single(WindowEvent::SurfaceCreated, sd);
    lemma_occurrences_single(WindowEvent::SurfaceCreated, cr);
    if inputs.len() == 0 {
        assert(seq![WindowEvent::SurfaceCreated] + Seq::<WindowEvent>::empty() == seq![
            WindowEvent::SurfaceCreated,
        ]);
        assert(Seq::<WindowEvent>::empty() + v0.events == v0.events);
    } else {
        let prefix = inputs.drop_last();
        let last = inputs.last();
        let before = adopted_run(v0, prefix);
        let step = adopted_input_records(before, last);
        lemma_adopted_lifetime(native, prefix);
        lemma_adopted_step(before, last);
        let head = seq![WindowEvent::SurfaceCreated];
        assert(adopted_lifetime_events(native, inputs) == adopted_lifetime_events(native, prefix) + step) by {
            assert(head + (adopted_recorded(v0, prefix) + step) == (head + adopted_recorded(v0, prefix)) + step);
        }
        lemma_occurrences_concat(adopted_lifetime_events(native, prefix), step, sd);
        lemma_occurrences_concat(adopted_lifetime_events(native, prefix), step, cr);
        assert((forall|i: int|
            0 <= i < inputs.len() ==> !(#[trigger] inputs[i] is SurfaceDestroyed) && !(inputs[i] is Close))
            <==> (forall|i: int|
            0 <= i < prefix.len() ==> !(#[trigger] prefix[i] is SurfaceDestroyed) && !(prefix[i] is Close))
            && !(last is SurfaceDestroyed) && !(last is Close)) by {
            assert(inputs[inputs.len() - 1] == last);
            assert forall|i: int| 0 <= i < prefix.len() implies prefix[i] == inputs[i] by {}
        }
        if exists|i: int| 0 <= i < inputs.len() && #[trigger] inputs[i] is Close {
            let i = choose|i: int| 0 <= i < inputs.len() && #[trigger] inputs[i] is Close;
            if i < prefix.len() {
                assert(prefix[i] == inputs[i]);
            } else {
                assert(last == inputs[i]);
            }
        }
        let earlier = adopted_handed_out(v0, prefix);
        if last is Poll {
            assert(step == Seq::<WindowEvent>::empty());
            assert(adopted_lifetime_events(native, prefix) + step == adopted_lifetime_events(native, prefix));
            assert(adopted_handed_out(v0, inputs) == earlier + before.events);
            assert((earlier + before.events) + Seq::<WindowEvent>::empty() == earlier + before.events);
        } else {
            assert(adopted_handed_out(v0, inputs) == earlier + Seq::<WindowEvent>::empty());
            assert(earlier + Seq::<WindowEvent>::empty() == earlier);
            assert(earlier + (before.events + step) == (earlier + before.events) + step);
        }
    }
}

} // verus!
