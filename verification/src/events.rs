//! The events the renderer reacts to, as plain values.

use vstd::prelude::*;

use crate::state::GraphicsState;
use crate::surface::PhysicalSize;

verus! {

/// Events the renderer sends to itself.
pub enum UserEvent {
    /// The GPU state finished setting up in the background (web target).
    WasmGraphicsInitialized(GraphicsState),
    /// A frame is asked for.
    RedrawRequest,
}

/// The physical key of a keyboard event, as far as the renderer tells keys apart.
#[derive(Clone, Copy, Debug, PartialEq, Eq, Structural)]
pub enum PhysicalKey {
    Escape,
    F11,
    Other,
}

/// Whether a key went down or up.
#[derive(Clone, Copy, Debug, PartialEq, Eq, Structural)]
pub enum ElementState {
    Pressed,
    Released,
}

/// What happened to the window.
#[derive(Clone, Copy, Debug, PartialEq, Eq, Structural)]
pub enum WindowEvent {
    /// The user asked to close the window.
    CloseRequested,
    /// The window's drawable area changed size.
    Resized(PhysicalSize),
    /// The window wants to be drawn.
    RedrawRequested,
    /// A key changed state; `repeat` marks a key held down.
    KeyboardInput { physical_key: PhysicalKey, repeat: bool, state: ElementState },
    /// Anything else.
    Other,
}

} // verus!
