//! The application over a whole run: what holds of every sequence of events.

use vstd::prelude::*;
use crate::gfx::App;
use crate::state::{AppState, CustomEvent, WindowAction, WindowEvent};

verus! {

/// Everything that the host delivers, in one type.
pub enum Event<H> {
    /// The host has been resumed.
    Resumed,
    /// The window reports something.
    Window(WindowEvent),
    /// The host signals something of its own.
    User(CustomEvent<H>),
}

/// How many of the events are resumes.
pub open spec fn resumes<H>(events: Seq<Event<H>>) -> nat
    decreases events.len(),
{
    if events.len() == 0 {
        0
    } else {
        (if events[0] is Resumed { 1nat } else { 0nat }) + resumes(events.skip(1))
    }
}

/// Whether none of the events is a signal of the host's own.
pub open spec fn no_signal<H>(events: Seq<Event<H>>) -> bool {
    forall|i: int| 0 <= i < events.len() ==> !(#[trigger] events[i] is User)
}

impl<P, H> AppState<P, H> {
    /// The state after one event. A resume changes nothing by itself: the
    /// application starts to run when the host signals that it can.
    pub open spec fn after(self, event: Event<H>) -> Self {
        match event {
            Event::Resumed => self,
            Event::Window(event) => self.after_window_event(event),
            Event::User(event) => self.after_user_event(event),
        }
    }

    /// The state after a sequence of events, delivered in order.
    pub open spec fn after_all(self, events: Seq<Event<H>>) -> Self
        decreases events.len(),
    {
        if events.len() == 0 {
            self
        } else {
            self.after(events[0]).after_all(events.skip(1))
        }
    }

    /// Whether this event makes the host build a graphics context: a resume
    /// that reaches a waiting application.
    pub open spec fn starts_initialization(self, event: Event<H>) -> bool {
        self is Uninitialized && event is Resumed
    }

    /// How often the host is made to build a graphics context while the
    /// events are delivered in order.
    pub open spec fn initializations(self, events: Seq<Event<H>>) -> nat
        decreases events.len(),
    {
        if events.len() == 0 {
            0
        } else {
            (if self.starts_initialization(events[0]) { 1nat } else { 0nat })
                + self.after(events[0]).initializations(events.skip(1))
        }
    }
}

/// A waiting application keeps waiting, with the same signalling handle,
/// whatever window events and resumes reach it: only the host's signal ends
/// the wait. And while it waits, a window event asks nothing of the host.
pub proof fn lemma_waiting_until_signalled<P, H>(state: AppState<P, H>, events: Seq<Event<H>>)
    requires
        state is Uninitialized,
        no_signal(events),
    ensures
        state.after_all(events) == state,
        forall|event: WindowEvent| #[trigger] state.window_action(event) == WindowAction::Nothing,
    decreases events.len(),
{
    if events.len() > 0 {
        assert(!(events[0] is User));
        assert(state.after(events[0]) == state);
        let rest = events.skip(1);
        assert forall|i: int| 0 <= i < rest.len() implies !(#[trigger] rest[i] is User) by {
            assert(rest[i] == events[i + 1]);
        }
        lemma_waiting_until_signalled(state, rest);
    }
}

/// A running application keeps running, on the graphics context that it
/// has: no event leads back to waiting, a later signal replaces nothing, and
/// a resize changes the size of the surface and nothing else.
pub proof fn lemma_running_stays_running<P, H>(state: AppState<P, H>, events: Seq<Event<H>>)
    requires
        state is Initialized,
    ensures
        state.after_all(events) is Initialized,
        state.after_all(events)->Initialized_0.gfx_state.handles
            == state->Initialized_0.gfx_state.handles,
        state.after_all(events)->Initialized_0.gfx_state.surface_config.with_size(
            state->Initialized_0.gfx_state.surface_config.size(),
        ) == state->Initialized_0.gfx_state.surface_config,
        state->Initialized_0.gfx_state.surface_config.is_standard() ==> state.after_all(
            events,
        )->Initialized_0.gfx_state.surface_config.is_standard(),
    decreases events.len(),
{
    if events.len() > 0 {
        let next = state.after(events[0]);
        assert(next is Initialized);
        lemma_running_stays_running(next, events.skip(1));
    }
}

/// A resume that reaches a running application is a no-op: the state stays
/// as it is and no graphics context is built. This holds of every resume
/// after the application has started to run, whatever came in between.
pub proof fn lemma_resume_while_running<P, H>(state: AppState<P, H>, events: Seq<Event<H>>)
    requires
        state is Initialized,
    ensures
        state.after(Event::Resumed) == state,
        !state.after_all(events).starts_initialization(Event::Resumed),
        state.initializations(events) == 0,
    decreases events.len(),
{
    lemma_running_stays_running(state, events);
    if events.len() > 0 {
        let next = state.after(events[0]);
        assert(next is Initialized);
        lemma_resume_while_running(next, events.skip(1));
    }
}

/// A waiting application makes the host build a graphics context once for
/// each resume that reaches it before the host's first signal, and never
/// again after that signal. With exactly one resume before the signal,
/// exactly one graphics context is built, however many resumes follow.
pub proof fn lemma_initializations<P, H>(
    state: AppState<P, H>,
    before: Seq<Event<H>>,
    signal: CustomEvent<H>,
    after: Seq<Event<H>>,
)
    requires
        state is Uninitialized,
        no_signal(before),
    ensures
        state.initializations(before + seq![Event::User(signal)] + after) == resumes(before),
    decreases before.len(),
{
    let events = before + seq![Event::User(signal)] + after;
    if before.len() == 0 {
        assert(events[0] == Event::User(signal));
        assert(events.skip(1) =~= after);
        let next = state.after(events[0]);
        assert(next is Initialized);
        lemma_resume_while_running(next, after);
    } else {
        assert(events[0] == before[0]);
        assert(!(before[0] is User));
        assert(state.after(events[0]) == state);
        let rest = before.skip(1);
        assert(events.skip(1) =~= rest + seq![Event::User(signal)] + after);
        assert forall|i: int| 0 <= i < rest.len() implies !(#[trigger] rest[i] is User) by {
            assert(rest[i] == before[i + 1]);
        }
        lemma_initializations(state, rest, signal, after);
    }
}

/// The host's signal is taken once: the first one starts the application,
/// and a signal that reaches a running application changes nothing.
pub proof fn lemma_signal_taken_once<P, H>(
    state: AppState<P, H>,
    first: CustomEvent<H>,
    second: CustomEvent<H>,
)
    ensures
        state.after_user_event(first) is Initialized,
        state is Uninitialized ==> state.after_user_event(first) == AppState::<P, H>::Initialized(
            first->Initialized_0,
        ),
        state.after_user_event(first).after_user_event(second) == state.after_user_event(first),
{
}

/// A request to close the window ends the loop of a running application,
/// whatever it has been through; and nothing else ends the loop.
pub proof fn lemma_close_requested_exits<P, H>(state: AppState<P, H>, events: Seq<Event<H>>)
    requires
        state is Initialized,
    ensures
        state.after_all(events).window_action(WindowEvent::CloseRequested) == WindowAction::Exit,
        forall|any: AppState<P, H>, event: WindowEvent|
            #[trigger] any.window_action(event) == WindowAction::Exit <==> any is Initialized
                && event == WindowEvent::CloseRequested,
{
    lemma_running_stays_running(state, events);
}

} // verus!
