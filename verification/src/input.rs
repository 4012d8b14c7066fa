//! Events as the window hands them over, reduced to what the renderer
//! looks at.

use vstd::prelude::*;
use crate::surface::PhysicalSize;

verus! {

/// Whether a key or button went down or came up.
#[derive(Clone, Copy, Debug, PartialEq, Eq, Structural)]
pub enum ElementState {
    Pressed,
    Released,
}

/// The keys the renderer tells apart. Any other key is `Other`.
#[derive(Clone, Copy, Debug, PartialEq, Eq, Structural)]
pub enum Key {
    W,
    A,
    S,
    D,
    Up,
    Down,
    Left,
    Right,
    Space,
    LShift,
    Escape,
    Other,
}

#[derive(Clone, Copy, Debug, PartialEq, Eq, Structural)]
pub enum MouseButton {
    Left,
    Right,
    Middle,
    Other(u16),
}

/// One turn of the mouse wheel, horizontal part first. The numbers are
/// floats in their bits: 32-bit for lines, 64-bit for pixels.
#[derive(Clone, Copy, Debug, PartialEq, Eq, Structural)]
pub enum MouseScrollDelta {
    LineDelta(u32, u32),
    PixelDelta(u64, u64),
}

/// One motion of the mouse, as two 64-bit floats in their bits.
#[derive(Clone, Copy, Debug, PartialEq, Eq, Structural)]
pub struct MouseDelta {
    pub dx: u64,
    pub dy: u64,
}

/// An event of the window.
#[derive(Clone, Copy, Debug, PartialEq, Eq, Structural)]
pub enum WindowEvent {
    /// A key changed state. `key` is `None` where the platform gave the key
    /// no name.
    KeyboardInput { key: Option<Key>, state: ElementState },
    MouseWheel { delta: MouseScrollDelta },
    MouseInput { button: MouseButton, state: ElementState },
    CloseRequested,
    Resized(PhysicalSize),
    ScaleFactorChanged { new_inner_size: PhysicalSize },
    Other,
}

/// An event of the event loop.
#[derive(Clone, Copy, Debug, PartialEq, Eq, Structural)]
pub enum Event {
    /// All pending events have been handed over.
    MainEventsCleared,
    /// The mouse moved, whatever window has the focus.
    MouseMotion(MouseDelta),
    /// An event of the renderer's own window.
    Window(WindowEvent),
    /// The renderer's own window wants to be drawn.
    RedrawRequested,
    Other,
}

} // verus!
