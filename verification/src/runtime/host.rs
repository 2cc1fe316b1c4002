//! The runtime's public types over the `winit` event loop: the application's
//! window, the capability passed into application callbacks, the runtime
//! itself, and the callback driver that turns platform callbacks into ordered
//! host events.

use raw_window_handle::{DisplayHandle, HandleError, HasDisplayHandle, HasWindowHandle, WindowHandle};
use vstd::prelude::*;
use winit::dpi::PhysicalSize;
use winit::error::{EventLoopError, OsError};
use winit::event_loop::{ActiveEventLoop, EventLoop};
use winit::window::{Window as WinitWindow, WindowAttributes};

use super::laws::{
    lemma_first_event_announces_the_drawable, runtime_callbacks, runtime_live, runtime_window,
    valid_inputs,
};
use super::lifecycle::{
    exiting_events, input_fits, resumed_events, runtime_step, spec_resumed, spec_translate,
    suspended_events, translate_window_event, window_after, PlatformWindowEvent, RuntimeInput,
};
use crate::window::{WindowConfig, WindowError, WindowEvent};

verus! {

/// `winit::event_loop::ActiveEventLoop`, the running loop handed to callbacks; opaque here.
#[verifier::external_type_specification]
#[verifier::external_body]
pub struct ExActiveEventLoop(ActiveEventLoop);

/// `winit::event_loop::EventLoop`, the platform event loop; opaque here.
#[verifier::external_type_specification]
#[verifier::external_body]
#[verifier::reject_recursive_types(T)]
pub struct ExEventLoop<T: 'static>(EventLoop<T>);

/// `winit::window::Window`, a native window; opaque here.
#[verifier::external_type_specification]
#[verifier::external_body]
pub struct ExWinitWindow(WinitWindow);

/// `winit::error::OsError`, a platform failure while creating a window; opaque here.
#[verifier::external_type_specification]
#[verifier::external_body]
pub struct ExOsError(OsError);

/// `winit::error::EventLoopError`, a failure while building or running the loop; opaque here.
#[verifier::external_type_specification]
#[verifier::external_body]
pub struct ExEventLoopError(EventLoopError);

/// Calls `winit::event_loop::ActiveEventLoop::create_window` with window
/// attributes that carry `title` and the physical inner size `width` by
/// `height`, and wraps the native window with its `winit::window::Window::id`
/// (converted by winit's `From<WindowId> for u64`) and the title and size it
/// was requested with. Whether the platform creates the window depends on the
/// machine, so nothing is claimed of success.
///
/// winit's X11 backend, the one this crate enables on Linux, panics on a
/// title with a NUL character and on a side longer than 65535 pixels; those
/// inputs are left out.
#[verifier::external_body]
fn create_native_window(event_loop: &ActiveEventLoop, title: &str, width: u32, height: u32) -> (result:
    Result<HostWindow, OsError>)
    requires
        crate::window::title_is_nul_free(title@),
        width <= MAX_WINDOW_SIDE,
        height <= MAX_WINDOW_SIDE,
    ensures
        result matches Ok(window) ==> window.requested_title() == title@ && window.requested_width()
            == width && window.requested_height() == height,
{
    let size = PhysicalSize::new(width, height);
    let attributes = WindowAttributes::default().with_title(title).with_inner_size(size);
    match event_loop.create_window(attributes) {
        Ok(inner) => {
            let id = u64::from(inner.id());
            Ok(HostWindow { inner, id, title: title.to_string(), width, height })
        },
        Err(error) => Err(error),
    }
}

/// Calls `winit::window::Window::request_redraw`, which asks the platform for
/// one redraw callback.
#[verifier::external_body]
fn request_native_redraw(window: &WinitWindow) {
    window.request_redraw()
}

/// Calls `HasWindowHandle::window_handle` of `winit::window::Window`. The
/// handle comes from the platform, so nothing is claimed of the result.
#[verifier::external_body]
fn native_window_handle(window: &WinitWindow) -> (handle: Result<WindowHandle<'_>, HandleError>) {
    window.window_handle()
}

/// Calls `HasDisplayHandle::display_handle` of `winit::window::Window`. The
/// handle comes from the platform, so nothing is claimed of the result.
#[verifier::external_body]
fn native_display_handle(window: &WinitWindow) -> (handle: Result<DisplayHandle<'_>, HandleError>) {
    window.display_handle()
}

/// A native window created by [`HostContext`] while the platform permits it.
///
/// It hands out the standard `raw-window-handle` handles of the window. The
/// window is thread-affine because the underlying platform object is.
pub struct HostWindow {
    inner: WinitWindow,
    id: u64,
    title: String,
    width: u32,
    height: u32,
}

/// The longest window side, in physical pixels, that a window can be created
/// with: the X11 protocol carries window sizes in 16 bits.
pub const MAX_WINDOW_SIDE: u32 = 65535;

/// Whether a window of `width` by `height` physical pixels can be asked of
/// the platform.
pub open spec fn window_sides_fit(width: u32, height: u32) -> bool {
    width <= MAX_WINDOW_SIDE && height <= MAX_WINDOW_SIDE
}

/// The description carried by the refusal of a window side longer than
/// [`MAX_WINDOW_SIDE`].
pub open spec fn oversized_window_text() -> Seq<char> {
    "window side exceeds 65535 physical pixels"@
}

impl HostWindow {
    /// Requests one redraw callback for this native drawable.
    pub fn request_redraw(&self) {
        request_native_redraw(&self.inner)
    }

    /// The platform's window handle of this window.
    pub fn window_handle(&self) -> (handle: Result<WindowHandle<'_>, HandleError>) {
        native_window_handle(&self.inner)
    }

    /// The platform's display handle of this window.
    pub fn display_handle(&self) -> (handle: Result<DisplayHandle<'_>, HandleError>) {
        native_display_handle(&self.inner)
    }

    /// The platform's identifier of this window, as recorded when the window
    /// was created; a window keeps its identifier for its whole life.
    pub closed spec fn window_id(&self) -> u64 {
        self.id
    }

    /// The title the window was created with.
    pub closed spec fn requested_title(&self) -> Seq<char> {
        self.title@
    }

    /// The physical client width the window was created with.
    pub closed spec fn requested_width(&self) -> u32 {
        self.width
    }

    /// The physical client height the window was created with.
    pub closed spec fn requested_height(&self) -> u32 {
        self.height
    }

    /// The platform's identifier of this window.
    fn id(&self) -> (id: u64)
        ensures
            id == self.window_id(),
    {
        self.id
    }
}

/// Temporary capability passed into [`HostApplication`] callbacks.
///
/// It does not own a GPU object. A consumer must only borrow [`HostWindow`]
/// while its matching surface interval is alive, and must release any
/// presentation state after `SurfaceDestroyed` before the next resume.
pub struct HostContext<'a> {
    event_loop: &'a ActiveEventLoop,
    window: Option<HostWindow>,
    exit_requested: bool,
}

impl<'a> HostContext<'a> {
    /// The application's window, if it created one.
    pub closed spec fn window_slot(&self) -> Option<HostWindow> {
        self.window
    }

    /// Whether the application asked, through this context, that the loop stop.
    pub closed spec fn exit_requested(&self) -> bool {
        self.exit_requested
    }

    /// Creates the one minimal presentation window, if absent, with the
    /// configuration's title and client extent.
    ///
    /// An existing window is returned unchanged and no second window is
    /// created. A side longer than [`MAX_WINDOW_SIDE`] is refused with
    /// [`WindowError::Platform`] and [`oversized_window_text`] before the
    /// platform is asked; a platform refusal is reported as
    /// [`WindowError::Platform`] with winit's description. Either refusal
    /// leaves the context without a window.
    pub fn create_window(&mut self, config: WindowConfig) -> (result: Result<&HostWindow, WindowError>)
        ensures
            final(self).exit_requested() == old(self).exit_requested(),
            old(self).window_slot() is Some ==> result is Ok && final(self).window_slot() == old(
                self,
            ).window_slot(),
            old(self).window_slot() is None && !window_sides_fit(config@.client_width, config@.client_height)
                ==> (result matches Err(WindowError::Platform(message)) && message@
                == oversized_window_text()),
            old(self).window_slot() is None && result is Ok ==> {
                let window = final(self).window_slot().unwrap();
                &&& window.requested_title() == config@.title
                &&& window.requested_width() == config@.client_width
                &&& window.requested_height() == config@.client_height
            },
            result matches Ok(window) ==> final(self).window_slot() == Some(*window),
            result is Err ==> old(self).window_slot() is None && final(self).window_slot() is None,
            old(self).window_slot() is None && window_sides_fit(config@.client_width, config@.client_height)
                ==> (result matches Err(error) ==> error matches WindowError::Platform(message) && exists|
                os_error: OsError,
            | #[trigger] vstd::string::to_string_from_display_ensures::<OsError>(&os_error, message)),
    {
        if self.window.is_none() {
            let width = config.client_width();
            let height = config.client_height();
            if width > MAX_WINDOW_SIDE || height > MAX_WINDOW_SIDE {
                let message = String::from_str("window side exceeds 65535 physical pixels");
                return Err(WindowError::Platform(message));
            }
            match create_native_window(self.event_loop, config.title(), width, height) {
                Ok(window) => {
                    self.window = Some(window);
                },
                Err(error) => {
                    let message = error.to_string();
                    let outcome: Result<&HostWindow, WindowError> = Err(WindowError::Platform(message));
                    assert(outcome->Err_0->Platform_0 == message);
                    assert(exists|e: OsError|
                        #[trigger] vstd::string::to_string_from_display_ensures::<OsError>(
                            &e,
                            outcome->Err_0->Platform_0,
                        ));
                    return outcome;
                },
            }
        }
        Ok(self.window.as_ref().unwrap())
    }

    /// Returns the live window, if the application created one.
    pub fn window(&self) -> (window: Option<&HostWindow>)
        ensures
            window is Some <==> self.window_slot() is Some,
            window matches Some(w) ==> Some(*w) == self.window_slot(),
    {
        self.window.as_ref()
    }

    /// Stops the platform event loop after this callback returns: the request
    /// is handed to the loop once the callback is over.
    pub fn exit(&mut self)
        ensures
            final(self).exit_requested(),
            final(self).window_slot() == old(self).window_slot(),
    {
        self.exit_requested = true;
    }
}

/// Failure while starting or running the event-driven host runtime.
#[derive(Debug)]
pub struct HostRuntimeError(String);

impl View for HostRuntimeError {
    type V = Seq<char>;

    open spec fn view(&self) -> Seq<char> {
        self.text()@
    }
}

impl HostRuntimeError {
    /// The text of the error.
    pub closed spec fn text(&self) -> String {
        self.0
    }

    /// The error of an event loop that could not be built or run, carrying
    /// winit's description of it.
    pub fn from_event_loop_error(error: &EventLoopError) -> (runtime_error: Self)
        ensures
            vstd::string::to_string_from_display_ensures::<EventLoopError>(error, runtime_error.text()),
    {
        HostRuntimeError(error.to_string())
    }

    /// An error with this text.
    pub fn from_message(message: &str) -> (runtime_error: Self)
        ensures
            runtime_error@ == message@,
    {
        HostRuntimeError(String::from_str(message))
    }

    /// The human-readable text of the error.
    pub fn message(&self) -> (text: &str)
        ensures
            text@ == self@,
    {
        self.0.as_str()
    }
}

/// An event-driven native runtime for test hosts and examples.
///
/// The platform entry point builds the event loop, on the thread and with the
/// platform objects that the platform demands, and hands it over with
/// [`HostRuntime::from_event_loop`].
pub struct HostRuntime {
    event_loop: EventLoop<()>,
}

impl HostRuntime {
    /// The platform event loop this runtime runs.
    pub closed spec fn event_loop(&self) -> EventLoop<()> {
        self.event_loop
    }

    /// A runtime over an event loop that the platform entry point built, such
    /// as Android's, which needs the activity handed to `android_main`.
    pub fn from_event_loop(event_loop: EventLoop<()>) -> (runtime: Self)
        ensures
            runtime.event_loop() == event_loop,
    {
        HostRuntime { event_loop }
    }

    /// Gives up the event loop to the driver that runs it.
    pub fn into_event_loop(self) -> (event_loop: EventLoop<()>)
        ensures
            event_loop == self.event_loop(),
    {
        self.event_loop
    }
}

/// Callbacks delivered by the minimal cross-platform native runtime.
///
/// `resumed` is the only place portable applications may create their first
/// window. On Android and iOS it is also the place to recreate a presentation
/// target after a suspended/destroyed interval.
///
/// A [`HostContext`] offers no way to remove or replace a window that exists:
/// it can only create one where there is none. So every implementation leaves
/// an existing window in place, which the contracts below state; they hold of
/// implementations outside this crate by that construction, unchecked.
///
/// `received` is the application's history of the callbacks it was handed, in
/// order: each callback appends itself to it.
pub trait HostApplication {
    /// Every callback this application was handed so far, oldest first.
    ///
    /// This is a specification of the application, never run: an
    /// implementation verified with Verus defines it as its history of
    /// callbacks; one written outside Verus gives it a body that is never
    /// reached.
    spec fn received(&self) -> CallbackHistory;

    /// For each callback in [`Self::received`], what it left behind: whether
    /// the application asked through its context that the loop stop, and the
    /// window its context held when it returned. Like `received`, a
    /// specification of the application that is never run.
    spec fn stop_requests(&self) -> StopHistory;

    /// The application may create a window through `host` in this callback.
    fn resumed(&mut self, host: &mut HostContext<'_>)
        ensures
            final(self).received() == old(self).received().push(AppCallback::Resumed),
            final(self).stop_requests() == old(self).stop_requests().push(
                (CallbackOutcome {
                    asked_to_stop: final(host).exit_requested() && !old(host).exit_requested(),
                    window: final(host).window_slot(),
                }),
            ),
            old(host).exit_requested() ==> final(host).exit_requested(),
            old(host).window_slot() is Some ==> final(host).window_slot() == old(host).window_slot(),
    ;

    /// A lifecycle or window fact was observed in platform order.
    fn window_event(&mut self, host: &mut HostContext<'_>, event: WindowEvent)
        ensures
            final(self).received() == old(self).received().push(AppCallback::Event(event)),
            final(self).stop_requests() == old(self).stop_requests().push(
                (CallbackOutcome {
                    asked_to_stop: final(host).exit_requested() && !old(host).exit_requested(),
                    window: final(host).window_slot(),
                }),
            ),
            old(host).exit_requested() ==> final(host).exit_requested(),
            old(host).window_slot() is Some ==> final(host).window_slot() == old(host).window_slot(),
    ;
}

/// What one callback into the application left behind.
pub struct CallbackOutcome {
    /// Whether the application asked through its context that the loop stop.
    pub asked_to_stop: bool,
    /// The window the callback's context held when the callback returned.
    pub window: Option<HostWindow>,
}

/// For each callback into the application, what it left behind.
pub type StopHistory = Seq<CallbackOutcome>;

/// Whether the application asked the loop to stop in a callback that `next`
/// recorded and `prev` had not.
pub open spec fn asked_since(prev: StopHistory, next: StopHistory) -> bool {
    exists|i: int| prev.len() <= i < next.len() && #[trigger] next[i].asked_to_stop
}

/// `next` extends `prev` by `count` entries.
pub open spec fn extends_by(prev: StopHistory, next: StopHistory, count: nat) -> bool {
    &&& next.len() == prev.len() + count
    &&& next.take(prev.len() as int) == prev
}

/// An exit request stops the loop: when the application asked through its
/// context, in any of the callbacks that one answer of the runner made, that
/// answer's `stop` is set; and it is set only by such a request (or a close
/// of the application's window, which `Runner::window_event` states).
pub proof fn lemma_exit_request_stops_loop(prev: StopHistory, next: StopHistory, count: nat)
    requires
        extends_by(prev, next, count),
    ensures
        forall|i: int| prev.len() <= i < next.len() && #[trigger] next[i].asked_to_stop ==> asked_since(
            prev,
            next,
        ),
        !asked_since(prev, next) ==> forall|i: int| prev.len() <= i < next.len() ==> !#[trigger] next[
            i
        ].asked_to_stop,
{
}

proof fn lemma_extend_by_one(start: StopHistory, prev: StopHistory, entry: CallbackOutcome, count: nat)
    requires
        extends_by(start, prev, count),
    ensures
        extends_by(start, prev.push(entry), count + 1),
        asked_since(start, prev.push(entry)) == (asked_since(start, prev) || entry.asked_to_stop),
        prev.push(entry).last() == entry,
{
    let n = start.len() as int;
    let next = prev.push(entry);
    assert(next.take(n) == prev.take(n));
    if asked_since(start, next) && !entry.asked_to_stop {
        let i = choose|i: int| n <= i < next.len() && #[trigger] next[i].asked_to_stop;
        assert(prev[i].asked_to_stop);
    }
    if asked_since(start, prev) {
        let i = choose|i: int| n <= i < prev.len() && #[trigger] prev[i].asked_to_stop;
        assert(next[i].asked_to_stop);
    }
    if entry.asked_to_stop {
        assert(next[prev.len() as int].asked_to_stop);
    }
}

proof fn lemma_extend_by_none(prev: StopHistory)
    ensures
        extends_by(prev, prev, 0),
        !asked_since(prev, prev),
{
    assert(prev.take(prev.len() as int) == prev);
}

proof fn lemma_extend_transitive(a: StopHistory, b: StopHistory, c: StopHistory, m: nat, n: nat)
    requires
        extends_by(a, b, m),
        extends_by(b, c, n),
    ensures
        extends_by(a, c, m + n),
        asked_since(a, c) == (asked_since(a, b) || asked_since(b, c)),
        forall|i: int| 0 <= i < b.len() ==> #[trigger] c[i] == b[i],
{
    let la = a.len() as int;
    let lb = b.len() as int;
    assert forall|i: int| 0 <= i < b.len() implies #[trigger] c[i] == b[i] by {
        assert(c.take(lb)[i] == c[i]);
    }
    assert(c.take(la) == a) by {
        assert forall|i: int| 0 <= i < la implies #[trigger] c.take(la)[i] == a[i] by {
            assert(b.take(la)[i] == b[i]);
        }
    }
    if asked_since(a, c) {
        let i = choose|i: int| la <= i < c.len() && #[trigger] c[i].asked_to_stop;
        if i < lb {
            assert(b[i].asked_to_stop);
        }
    }
    if asked_since(a, b) {
        let i = choose|i: int| la <= i < b.len() && #[trigger] b[i].asked_to_stop;
        assert(c[i].asked_to_stop);
    }
}

/// One callback that the runtime makes into the application.
pub enum AppCallback {
    /// The application's `resumed` callback.
    Resumed,
    /// The application's `window_event` callback with this event.
    Event(WindowEvent),
}

/// A history of callbacks into the application, oldest first.
pub type CallbackHistory = Seq<AppCallback>;

/// The `window_event` callbacks that deliver `events`, in order.
pub open spec fn event_callbacks(events: Seq<WindowEvent>) -> Seq<AppCallback> {
    events.map_values(|event: WindowEvent| AppCallback::Event(event))
}

/// The events among a sequence of callbacks, in order.
pub open spec fn events_of(callbacks: Seq<AppCallback>) -> Seq<WindowEvent>
    decreases callbacks.len(),
{
    if callbacks.len() == 0 {
        seq![]
    } else {
        match callbacks.last() {
            AppCallback::Event(event) => events_of(callbacks.drop_last()).push(event),
            AppCallback::Resumed => events_of(callbacks.drop_last()),
        }
    }
}

/// The callbacks that answering one platform callback makes into the
/// application: its own `resumed` first for a resume, then the events.
pub open spec fn step_callbacks(live: bool, input: RuntimeInput) -> Seq<AppCallback> {
    let events = event_callbacks(runtime_step(live, input).1);
    if input is Resumed {
        seq![AppCallback::Resumed] + events
    } else {
        events
    }
}

/// Drives a [`HostApplication`] from platform callbacks: it owns the
/// application's window between callbacks, tracks whether the drawable is
/// live, and hands the application its callbacks in platform order. Each
/// answer returns whether the loop must stop, which the loop's owner then asks
/// of the platform: on a close request of the application's window, or when
/// the application asked through [`HostContext::exit`] in one of the callbacks
/// of that answer, and never otherwise.
///
/// A runner built by [`Runner::new`] and driven only through its methods
/// always [follows its inputs](Runner::follows_inputs): each method ensures it
/// and requires it.
pub struct Runner<A> {
    application: A,
    window: Option<HostWindow>,
    surface_live: bool,
    received_before: Ghost<Seq<AppCallback>>,
    inputs: Ghost<Seq<RuntimeInput>>,
}

impl<A: HostApplication> Runner<A> {
    /// The application this runner drives.
    pub closed spec fn application(&self) -> A {
        self.application
    }

    /// Whether the application's drawable is currently live.
    pub closed spec fn surface_live(&self) -> bool {
        self.surface_live
    }

    /// What the application had received before this runner drove it.
    pub closed spec fn received_before(&self) -> Seq<AppCallback> {
        self.received_before@
    }

    /// The platform callbacks answered so far, each with what decided it.
    pub closed spec fn inputs(&self) -> Seq<RuntimeInput> {
        self.inputs@
    }

    /// The application's window, if it created one.
    pub closed spec fn window(&self) -> Option<HostWindow> {
        self.window
    }

    /// The callbacks the application received from this runner, in order.
    pub open spec fn received(&self) -> Seq<AppCallback> {
        self.application().received().skip(self.received_before().len() as int)
    }

    /// The application's record of its requests that the loop stop.
    pub open spec fn stops(&self) -> StopHistory {
        self.application().stop_requests()
    }

    /// The events the application received from this runner, in order.
    pub open spec fn delivered(&self) -> Seq<WindowEvent> {
        events_of(self.received())
    }

    /// Whether the application holds a window.
    pub open spec fn has_window(&self) -> bool {
        self.window() is Some
    }

    /// Whether `window_id` identifies the application's window.
    pub open spec fn owns_window(&self, window_id: u64) -> bool {
        match self.window() {
            Some(window) => window.window_id() == window_id,
            None => false,
        }
    }

    /// The runner's state, and what the application received from it, are
    /// those of the platform callbacks it answered, starting with no window and
    /// no live drawable.
    pub open spec fn follows_inputs(&self) -> bool {
        &&& valid_inputs(self.inputs())
        &&& self.has_window() == runtime_window(self.inputs())
        &&& self.surface_live() == runtime_live(false, self.inputs())
        &&& self.application().received() == self.received_before() + runtime_callbacks(self.inputs())
    }

    /// `next` answered one more platform callback than `prev`, the last of its
    /// inputs, and the application received exactly the callbacks that this
    /// input decides.
    pub open spec fn answered(prev: &Self, next: &Self) -> bool {
        let input = next.inputs().last();
        &&& next.inputs() == prev.inputs().push(input)
        &&& next.received_before() == prev.received_before()
        &&& next.surface_live() == runtime_step(prev.surface_live(), input).0
        &&& next.application().received() == prev.application().received() + step_callbacks(
            prev.surface_live(),
            input,
        )
        &&& extends_by(prev.stops(), next.stops(), step_callbacks(prev.surface_live(), input).len())
    }

    /// A driver of `application` that has answered nothing and holds no window.
    pub fn new(application: A) -> (runner: Self)
        ensures
            runner.application() == application,
            runner.received_before() == application.received(),
            !runner.surface_live(),
            !runner.has_window(),
            runner.inputs() == Seq::<RuntimeInput>::empty(),
            runner.follows_inputs(),
    {
        let ghost before = application.received();
        assert(before + runtime_callbacks(Seq::<RuntimeInput>::empty()) == before);
        Runner {
            application,
            window: None,
            surface_live: false,
            received_before: Ghost(before),
            inputs: Ghost(Seq::empty()),
        }
    }

    /// Runs the application's `resumed` callback with a context that holds
    /// the application's window, takes the window back afterwards, and says
    /// whether the application asked the loop to stop.
    fn call_resumed(&mut self, event_loop: &ActiveEventLoop) -> (stop: bool)
        ensures
            old(self).has_window() ==> final(self).window() == old(self).window(),
            final(self).surface_live() == old(self).surface_live(),
            final(self).inputs() == old(self).inputs(),
            final(self).received_before() == old(self).received_before(),
            final(self).application().received() == old(self).application().received().push(
                AppCallback::Resumed,
            ),
            extends_by(old(self).stops(), final(self).stops(), 1),
            stop == asked_since(old(self).stops(), final(self).stops()),
            final(self).window() == final(self).stops().last().window,
    {
        let mut context = HostContext { event_loop, window: self.window.take(), exit_requested: false };
        self.application.resumed(&mut context);
        self.window = context.window;
        proof {
            lemma_extend_by_none(old(self).stops());
            lemma_extend_by_one(
                old(self).stops(),
                old(self).stops(),
                (CallbackOutcome { asked_to_stop: context.exit_requested, window: context.window }),
                0,
            );
        }
        context.exit_requested
    }

    /// Hands one event to the application through a context that holds its
    /// window, which it keeps, and says whether it asked the loop to stop.
    fn emit(&mut self, event_loop: &ActiveEventLoop, event: WindowEvent) -> (stop: bool)
        requires
            old(self).has_window(),
        ensures
            final(self).window() == old(self).window(),
            final(self).surface_live() == old(self).surface_live(),
            final(self).inputs() == old(self).inputs(),
            final(self).received_before() == old(self).received_before(),
            final(self).application().received() == old(self).application().received().push(
                AppCallback::Event(event),
            ),
            extends_by(old(self).stops(), final(self).stops(), 1),
            stop == asked_since(old(self).stops(), final(self).stops()),
            final(self).window() == final(self).stops().last().window,
    {
        let mut context = HostContext { event_loop, window: self.window.take(), exit_requested: false };
        self.application.window_event(&mut context, event);
        self.window = context.window;
        proof {
            lemma_extend_by_none(old(self).stops());
            lemma_extend_by_one(
                old(self).stops(),
                old(self).stops(),
                (CallbackOutcome { asked_to_stop: context.exit_requested, window: context.window }),
                0,
            );
        }
        context.exit_requested
    }

    /// Hands events to the application in order; says whether it asked the
    /// loop to stop, which it cannot without a callback.
    fn emit_all(&mut self, event_loop: &ActiveEventLoop, events: Vec<WindowEvent>) -> (stop: bool)
        requires
            events@.len() > 0 ==> old(self).has_window(),
        ensures
            final(self).window() == old(self).window(),
            final(self).surface_live() == old(self).surface_live(),
            final(self).inputs() == old(self).inputs(),
            final(self).received_before() == old(self).received_before(),
            final(self).application().received() == old(self).application().received() + event_callbacks(
                events@,
            ),
            extends_by(old(self).stops(), final(self).stops(), events@.len()),
            stop == asked_since(old(self).stops(), final(self).stops()),
    {
        let ghost start = self.application().received();
        let ghost start_stops = self.stops();
        proof {
            lemma_extend_by_none(start_stops);
        }
        let mut stop = false;
        let mut index: usize = 0;
        while index < events.len()
            invariant
                index <= events.len(),
                events@.len() > 0 ==> old(self).has_window(),
                self.window() == old(self).window(),
                self.surface_live() == old(self).surface_live(),
                self.inputs() == old(self).inputs(),
                self.received_before() == old(self).received_before(),
                start == old(self).application().received(),
                self.application().received() == start + event_callbacks(events@.take(index as int)),
                start_stops == old(self).stops(),
                extends_by(start_stops, self.stops(), index as nat),
                stop == asked_since(start_stops, self.stops()),
            decreases events.len() - index,
        {
            let ghost before = self.stops();
            let asked = self.emit(event_loop, events[index]);
            proof {
                lemma_extend_transitive(start_stops, before, self.stops(), index as nat, 1);
            }
            stop = stop || asked;
            assert(events@.take(index + 1) == events@.take(index as int).push(events@[index as int]));
            assert(event_callbacks(events@.take(index + 1)) == event_callbacks(
                events@.take(index as int),
            ).push(AppCallback::Event(events@[index as int])));
            index = index + 1;
        }
        assert(events@.take(events.len() as int) == events@);
        stop
    }

    /// One more answered callback keeps the runner's state that of its inputs.
    proof fn lemma_record_input(prev: &Self, next: &Self, input: RuntimeInput)
        requires
            prev.follows_inputs(),
            input_fits(prev.has_window(), input),
            next.inputs() == prev.inputs().push(input),
            next.received_before() == prev.received_before(),
            next.has_window() == window_after(prev.has_window(), input),
            next.surface_live() == runtime_step(prev.surface_live(), input).0,
            next.application().received() == prev.application().received() + step_callbacks(
                prev.surface_live(),
                input,
            ),
            extends_by(prev.stops(), next.stops(), step_callbacks(prev.surface_live(), input).len()),
        ensures
            next.inputs().last() == input,
            next.follows_inputs(),
            Self::answered(prev, next),
    {
        assert(next.inputs().drop_last() == prev.inputs());
        assert(prev.received_before() + runtime_callbacks(prev.inputs()) + step_callbacks(
            prev.surface_live(),
            input,
        ) == prev.received_before() + (runtime_callbacks(prev.inputs()) + step_callbacks(
            prev.surface_live(),
            input,
        )));
    }

    /// A live drawable belongs to an existing window.
    proof fn lemma_live_has_window(&self)
        requires
            self.follows_inputs(),
        ensures
            self.surface_live() ==> self.has_window(),
    {
        lemma_first_event_announces_the_drawable(self.inputs());
    }

    /// The part of a resume after the application's `resumed` callback: with
    /// the window that the callback left, the drawable becomes live and the
    /// resume is reported.
    fn finish_resume(&mut self, event_loop: &ActiveEventLoop) -> (stop: bool)
        requires
            old(self).surface_live() ==> old(self).has_window(),
        ensures
            final(self).inputs() == old(self).inputs().push(
                RuntimeInput::Resumed { has_window: old(self).has_window() },
            ),
            final(self).window() == old(self).window(),
            final(self).received_before() == old(self).received_before(),
            final(self).surface_live() == spec_resumed(old(self).surface_live(), old(self).has_window()).0,
            final(self).application().received() == old(self).application().received() + event_callbacks(
                spec_resumed(old(self).surface_live(), old(self).has_window()).1,
            ),
            extends_by(
                old(self).stops(),
                final(self).stops(),
                spec_resumed(old(self).surface_live(), old(self).has_window()).1.len(),
            ),
            stop == asked_since(old(self).stops(), final(self).stops()),
    {
        let has_window = self.window.is_some();
        let (live, events) = resumed_events(self.surface_live, has_window);
        self.surface_live = live;
        let stop = self.emit_all(event_loop, events);
        self.inputs = Ghost(self.inputs@.push(RuntimeInput::Resumed { has_window }));
        stop
    }

    /// The platform resumed: the application's `resumed` callback may create
    /// its window, then a window's drawable becomes live and the resume is
    /// reported. An existing window is kept. Returns whether the application
    /// asked the loop to stop.
    pub fn resumed(&mut self, event_loop: &ActiveEventLoop) -> (stop: bool)
        requires
            old(self).follows_inputs(),
        ensures
            final(self).inputs().last() == (RuntimeInput::Resumed { has_window: final(self).has_window() }),
            old(self).has_window() ==> final(self).window() == old(self).window(),
            Self::answered(old(self), final(self)),
            final(self).follows_inputs(),
            stop == asked_since(old(self).stops(), final(self).stops()),
            final(self).window() == final(self).stops()[old(self).stops().len() as int].window,
            old(self).window() is None && final(self).window() is Some ==> final(self).application().received()
                == old(self).application().received() + seq![
                AppCallback::Resumed,
                AppCallback::Event(WindowEvent::SurfaceCreated),
                AppCallback::Event(WindowEvent::Resumed),
            ],
    {
        proof {
            old(self).lemma_live_has_window();
        }
        let asked = self.call_resumed(event_loop);
        let ghost between = *self;
        let stop = self.finish_resume(event_loop);
        proof {
            let input = RuntimeInput::Resumed { has_window: between.has_window() };
            let events = event_callbacks(runtime_step(old(self).surface_live(), input).1);
            assert(old(self).application().received().push(AppCallback::Resumed) + events == old(
                self,
            ).application().received() + (seq![AppCallback::Resumed] + events));
            assert(events.len() == runtime_step(old(self).surface_live(), input).1.len());
            assert(step_callbacks(old(self).surface_live(), input).len() == 1 + events.len());
            lemma_extend_transitive(
                old(self).stops(),
                between.stops(),
                self.stops(),
                1,
                runtime_step(old(self).surface_live(), input).1.len(),
            );
            Self::lemma_record_input(old(self), self, input);
            assert(between.stops().last() == between.stops()[old(self).stops().len() as int]);
            assert(self.stops()[old(self).stops().len() as int] == between.stops()[old(
                self,
            ).stops().len() as int]);
            if old(self).window() is None && self.window() is Some {
                assert(!old(self).surface_live());
                assert(events == seq![
                    AppCallback::Event(WindowEvent::SurfaceCreated),
                    AppCallback::Event(WindowEvent::Resumed),
                ]);
                assert(seq![AppCallback::Resumed] + events == seq![
                    AppCallback::Resumed,
                    AppCallback::Event(WindowEvent::SurfaceCreated),
                    AppCallback::Event(WindowEvent::Resumed),
                ]);
            }
        }
        asked || stop
    }

    /// The platform suspended: a window hears of it and a live drawable is
    /// revoked. The window is kept. Returns whether the application asked the
    /// loop to stop; without a callback it cannot have.
    pub fn suspended(&mut self, event_loop: &ActiveEventLoop) -> (stop: bool)
        requires
            old(self).follows_inputs(),
        ensures
            final(self).inputs().last() == (RuntimeInput::Suspended { has_window: old(self).has_window() }),
            final(self).window() == old(self).window(),
            Self::answered(old(self), final(self)),
            final(self).follows_inputs(),
            stop == asked_since(old(self).stops(), final(self).stops()),
    {
        proof {
            old(self).lemma_live_has_window();
        }
        let has_window = self.window.is_some();
        let (live, events) = suspended_events(self.surface_live, has_window);
        self.surface_live = live;
        let stop = self.emit_all(event_loop, events);
        let ghost input = RuntimeInput::Suspended { has_window };
        self.inputs = Ghost(self.inputs@.push(input));
        proof {
            Self::lemma_record_input(old(self), self, input);
        }
        stop
    }

    /// A platform window event with the platform's window identifier: events
    /// of the application's window are translated and handed over. Returns
    /// whether the loop must stop: on a close request of the application's
    /// window, or when the application asked in the callback. The window is
    /// kept.
    pub fn window_event(&mut self, event_loop: &ActiveEventLoop, window_id: u64, event: PlatformWindowEvent)
        -> (stop: bool)
        requires
            old(self).follows_inputs(),
        ensures
            final(self).inputs().last() == (RuntimeInput::Window {
                own_window: old(self).owns_window(window_id),
                event,
            }),
            final(self).window() == old(self).window(),
            Self::answered(old(self), final(self)),
            final(self).follows_inputs(),
            stop == (spec_translate(old(self).owns_window(window_id), event).1 || asked_since(
                old(self).stops(),
                final(self).stops(),
            )),
    {
        let own_window = match &self.window {
            Some(window) => window.id() == window_id,
            None => false,
        };
        let (translated, close) = translate_window_event(own_window, event);
        let mut asked = false;
        match translated {
            Some(host_event) => {
                asked = self.emit(event_loop, host_event);
                assert(event_callbacks(seq![host_event]) == seq![AppCallback::Event(host_event)]);
                assert(old(self).application().received().push(AppCallback::Event(host_event)) == old(
                    self,
                ).application().received() + seq![AppCallback::Event(host_event)]);
            },
            None => {
                proof {
                    lemma_extend_by_none(old(self).stops());
                }
                assert(event_callbacks(Seq::<WindowEvent>::empty()) == Seq::<AppCallback>::empty());
                assert(old(self).application().received() + Seq::<AppCallback>::empty() == old(
                    self,
                ).application().received());
            },
        }
        let ghost input = RuntimeInput::Window { own_window, event };
        self.inputs = Ghost(self.inputs@.push(input));
        proof {
            Self::lemma_record_input(old(self), self, input);
        }
        close || asked
    }

    /// The event loop is exiting: a live drawable is revoked. The window is
    /// kept. Returns whether the application asked the loop to stop; without a
    /// callback it cannot have.
    pub fn exiting(&mut self, event_loop: &ActiveEventLoop) -> (stop: bool)
        requires
            old(self).follows_inputs(),
        ensures
            final(self).inputs().last() == RuntimeInput::Exiting,
            final(self).window() == old(self).window(),
            Self::answered(old(self), final(self)),
            final(self).follows_inputs(),
            stop == asked_since(old(self).stops(), final(self).stops()),
    {
        proof {
            old(self).lemma_live_has_window();
        }
        let (live, events) = exiting_events(self.surface_live);
        self.surface_live = live;
        let stop = self.emit_all(event_loop, events);
        let ghost input = RuntimeInput::Exiting;
        self.inputs = Ghost(self.inputs@.push(input));
        proof {
            Self::lemma_record_input(old(self), self, input);
        }
        stop
    }
}

} // verus!
