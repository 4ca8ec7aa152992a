//! The graphics context: the handles of a live surface together with the
//! configuration that the surface was last given.

use vstd::prelude::*;
use crate::frame::Frame;
use crate::surface::{PhysicalSize, SurfaceCapabilities, SurfaceConfiguration, SurfaceError};

verus! {

/// The state of the graphics side. `H` is whatever the host needs to draw:
/// the window, the surface, the device, the queue, the pipeline. The library
/// carries it and never looks inside.
#[derive(Debug, PartialEq, Eq)]
pub struct GfxState<H> {
    pub handles: H,
    pub surface_config: SurfaceConfiguration,
}

impl<H> GfxState<H> {
    pub fn new(handles: H, surface_config: SurfaceConfiguration) -> (state: Self)
        ensures
            state == (GfxState { handles, surface_config }),
    {
        GfxState { handles, surface_config }
    }
}

/// The running application. It owns its graphics context.
#[derive(Debug, PartialEq, Eq)]
pub struct App<H> {
    pub gfx_state: GfxState<H>,
}

impl<H> App<H> {
    /// Whether this is the application as it stands right after start-up, in
    /// a window of the given size.
    pub open spec fn is_new(self, handles: H, size: PhysicalSize, capabilities: SurfaceCapabilities) -> bool {
        &&& self.gfx_state.handles == handles
        &&& self.gfx_state.surface_config.is_initial(size, capabilities)
    }

    /// The application after a resize to `size`: a size with an area becomes
    /// the size of the surface, any other changes nothing.
    pub open spec fn resized(self, size: PhysicalSize) -> Self {
        if size.has_area() {
            App {
                gfx_state: GfxState {
                    surface_config: self.gfx_state.surface_config.with_size(size),
                    ..self.gfx_state
                },
            }
        } else {
            self
        }
    }

    /// Starts the application on a graphics context that the host has made.
    /// The surface gets the initial configuration for a window of `size`;
    /// the host applies it.
    pub fn new(handles: H, size: PhysicalSize, capabilities: &SurfaceCapabilities) -> (app: Self)
        requires
            capabilities.usable(),
        ensures
            app.is_new(handles, size, *capabilities),
    {
        let surface_config = SurfaceConfiguration::initial(size, capabilities);
        App { gfx_state: GfxState::new(handles, surface_config) }
    }

    /// What a redraw does once the host has tried to acquire the next texture
    /// of the surface. Where that went well, the frame is the triangle: the
    /// host records it, submits it and presents the texture. Where it failed,
    /// the error comes back and the frame is skipped.
    pub fn render(&self, acquired: Result<(), SurfaceError>) -> (outcome: Result<Frame, SurfaceError>)
        ensures
            match acquired {
                Ok(_) => outcome is Ok && outcome->Ok_0.is_triangle(),
                Err(error) => outcome == Err::<Frame, SurfaceError>(error),
            },
    {
        match acquired {
            Ok(_) => Ok(Frame::triangle()),
            Err(error) => Err(error),
        }
    }

    /// Takes a new window size. A size with an area is stored, and the result
    /// tells the host to configure the surface again with what is stored
    /// now. A size without an area is ignored.
    pub fn resize(&mut self, size: PhysicalSize) -> (reconfigure: bool)
        ensures
            *final(self) == old(self).resized(size),
            reconfigure == size.has_area(),
            !size.has_area() ==> *final(self) == *old(self),
            size.has_area() ==> final(self).gfx_state.surface_config.size() == size,
            reconfigure ==> final(self).gfx_state.surface_config.size().has_area(),
    {
        if size.width > 0 && size.height > 0 {
            self.gfx_state.surface_config.width = size.width;
            self.gfx_state.surface_config.height = size.height;
            true
        } else {
            false
        }
    }
}

} // verus!
