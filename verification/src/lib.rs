//! A window that shows one triangle, as a state machine.
//!
//! The host owns the window, the event loop and the GPU. This library owns the
//! decisions: when the graphics context is built, what a resize does to the
//! surface configuration, what a frame consists of, and when the loop ends.
//! Each handler takes an event and answers with the action that the host has
//! to perform.

pub mod frame;
pub mod gfx;
pub mod pipeline;
pub mod state;
pub mod surface;
pub mod trace;
