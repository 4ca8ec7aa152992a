//! The application's life: waiting for its graphics context, then serving
//! window events.

use vstd::prelude::*;
use crate::gfx::App;
use crate::surface::PhysicalSize;

verus! {

/// `take_mut::take` hands the value behind `mut_ref` to `closure` and stores
/// what the closure returns in its place. The closure is called exactly once,
/// on the value as it was, and must be callable on it; a closure that panics
/// would end the process.
pub assume_specification<T, F>[ take_mut::take::<T, F> ](mut_ref: &mut T, closure: F) where
    F: FnOnce(T) -> T,
    requires
        closure.requires((*old(mut_ref),)),
    ensures
        closure.ensures((*old(mut_ref),), *final(mut_ref)),
;

/// What the host tells the application besides window events.
#[derive(Debug, PartialEq, Eq)]
pub enum CustomEvent<H> {
    /// The graphics context has been built; here is the application on it.
    Initialized(App<H>),
}

/// The window events that the application reacts to, and a stand-in for all
/// the others.
#[derive(Clone, Copy, Debug, PartialEq, Eq, Structural)]
pub enum WindowEvent {
    Resized(PhysicalSize),
    RedrawRequested,
    CloseRequested,
    Other,
}

/// What the host has to do after a window event.
#[derive(Clone, Copy, Debug, PartialEq, Eq, Structural)]
pub enum WindowAction {
    /// Nothing.
    Nothing,
    /// Configure the surface with the configuration that is stored now.
    Reconfigure,
    /// Acquire the next texture of the surface and render a frame.
    Redraw,
    /// Leave the event loop.
    Exit,
}

/// The application either waits for its graphics context, holding the handle
/// `P` through which the host will signal that it is built, or runs on it.
#[derive(Debug, PartialEq, Eq)]
pub enum AppState<P, H> {
    Uninitialized(P),
    Initialized(App<H>),
}

impl<P, H> AppState<P, H> {
    /// Whether the application runs on a surface whose stored size has an
    /// area, so that the surface can be configured with what is stored.
    pub open spec fn has_area(self) -> bool {
        self matches AppState::Initialized(app) && app.gfx_state.surface_config.size().has_area()
    }

    /// The state after the signal that `app` is ready: a waiting application
    /// starts to run on it and gives up its signalling handle; a running one
    /// stays as it is.
    pub open spec fn initialized_with(self, app: App<H>) -> Self {
        match self {
            AppState::Uninitialized(_) => AppState::Initialized(app),
            AppState::Initialized(_) => self,
        }
    }

    /// The state after a user event.
    pub open spec fn after_user_event(self, event: CustomEvent<H>) -> Self {
        match event {
            CustomEvent::Initialized(app) => self.initialized_with(app),
        }
    }

    /// The state after a window event: only a running application changes,
    /// and only by a resize.
    pub open spec fn after_window_event(self, event: WindowEvent) -> Self {
        match (self, event) {
            (AppState::Initialized(app), WindowEvent::Resized(size)) => AppState::Initialized(
                app.resized(size),
            ),
            _ => self,
        }
    }

    /// What the host has to do after a window event. A waiting application
    /// asks for nothing.
    pub open spec fn window_action(self, event: WindowEvent) -> WindowAction {
        match self {
            AppState::Uninitialized(_) => WindowAction::Nothing,
            AppState::Initialized(_) => match event {
                WindowEvent::Resized(size) => if size.has_area() {
                    WindowAction::Reconfigure
                } else {
                    WindowAction::Nothing
                },
                WindowEvent::RedrawRequested => WindowAction::Redraw,
                WindowEvent::CloseRequested => WindowAction::Exit,
                WindowEvent::Other => WindowAction::Nothing,
            },
        }
    }

    /// The host has been resumed. A waiting application answers with its
    /// signalling handle: the host creates the window, builds the graphics
    /// context and sends `CustomEvent::Initialized` through the handle. A
    /// running application answers with nothing, and nothing is to be done.
    pub fn resumed(&self) -> (signal: Option<&P>)
        ensures
            match *self {
                AppState::Uninitialized(proxy) => signal == Some(&proxy),
                AppState::Initialized(_) => signal is None,
            },
    {
        match self {
            AppState::Uninitialized(proxy) => Some(proxy),
            AppState::Initialized(_) => None,
        }
    }

    /// Handles a window event and says what the host has to do.
    pub fn window_event(&mut self, event: WindowEvent) -> (action: WindowAction)
        ensures
            *final(self) == old(self).after_window_event(event),
            action == old(self).window_action(event),
            *old(self) is Uninitialized ==> *final(self) == *old(self),
            action == WindowAction::Reconfigure ==> final(self).has_area(),
    {
        match self {
            AppState::Uninitialized(_) => WindowAction::Nothing,
            AppState::Initialized(app) => match event {
                WindowEvent::Resized(size) => {
                    if app.resize(size) {
                        WindowAction::Reconfigure
                    } else {
                        WindowAction::Nothing
                    }
                },
                WindowEvent::RedrawRequested => WindowAction::Redraw,
                WindowEvent::CloseRequested => WindowAction::Exit,
                WindowEvent::Other => WindowAction::Nothing,
            },
        }
    }

    /// Handles a user event.
    pub fn user_event(&mut self, event: CustomEvent<H>)
        ensures
            *final(self) == old(self).after_user_event(event),
    {
        match event {
            CustomEvent::Initialized(app) => {
                let install = |state: Self| -> (next: Self)
                    ensures
                        next == state.initialized_with(app),
                    {
                        match state {
                            AppState::Uninitialized(_) => AppState::Initialized(app),
                            AppState::Initialized(_) => state,
                        }
                    };
                take_mut::take(self, install);
            },
        }
    }
}

} // verus!
