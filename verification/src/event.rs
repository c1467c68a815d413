//! What the host event loop delivers to the controller.

use vstd::prelude::*;
use crate::state::State;
use crate::window::{Size, WindowHandle};

verus! {

/// Transition of a key: going down or coming up.
#[derive(Clone, Copy, Debug, PartialEq, Eq, Structural)]
pub enum ElementState {
    Pressed,
    Released,
}

impl ElementState {
    pub open spec fn spec_is_pressed(self) -> bool {
        self is Pressed
    }

    /// True for `Pressed` and for nothing else.
    #[verifier::when_used_as_spec(spec_is_pressed)]
    pub fn is_pressed(self) -> (pressed: bool)
        ensures
            pressed == self.spec_is_pressed(),
    {
        self == ElementState::Pressed
    }
}

/// A key by its position on the keyboard, whatever the active layout prints
/// on it. Only `Escape` means anything to the controller.
#[derive(Clone, Copy, Debug, PartialEq, Eq, Structural)]
pub enum PhysicalKey {
    Escape,
    /// Any other key, identified by the host or not.
    Other,
}

/// An event that concerns the window.
#[derive(Clone, Copy, Debug, PartialEq, Eq, Structural)]
pub enum WindowEvent {
    /// The user asked to close the window.
    CloseRequested,
    /// The drawable area has a new size.
    Resized(Size),
    /// The host wants the window's contents drawn.
    RedrawRequested,
    /// A key went down or came up.
    KeyboardInput { physical_key: PhysicalKey, state: ElementState },
    /// Anything else the host reports about the window.
    Other,
}

impl WindowEvent {
    /// The events that end the application: a close request, and `Escape`
    /// going down.
    pub open spec fn spec_requests_exit(self) -> bool {
        match self {
            WindowEvent::CloseRequested => true,
            WindowEvent::KeyboardInput { physical_key, state } => physical_key is Escape
                && state.is_pressed(),
            _ => false,
        }
    }

    /// The events that no state of the controller reacts to: every key
    /// transition but `Escape` going down, and whatever the host reports
    /// besides close, resize, redraw and keyboard input.
    pub open spec fn is_inert(self) -> bool {
        match self {
            WindowEvent::KeyboardInput { .. } => !self.spec_requests_exit(),
            WindowEvent::Other => true,
            _ => false,
        }
    }

    /// Whether this event ends the application once a render state exists.
    #[verifier::when_used_as_spec(spec_requests_exit)]
    pub fn requests_exit(self) -> (exit: bool)
        ensures
            exit == self.spec_requests_exit(),
    {
        match self {
            WindowEvent::CloseRequested => true,
            WindowEvent::KeyboardInput { physical_key, state } => match (
                physical_key,
                state.is_pressed(),
            ) {
                (PhysicalKey::Escape, true) => true,
                _ => false,
            },
            _ => false,
        }
    }
}

/// Everything the host can deliver, in one type.
#[derive(Debug, PartialEq, Eq)]
pub enum Event {
    /// The host is ready for the application to open its window.
    Resumed,
    /// The host's answer to a request for a window: the window, or `None`
    /// where the surface it had to be bound to was not found.
    WindowCreated(Option<WindowHandle>),
    /// The render state that was constructed off the event loop has arrived,
    /// together with the size the window has at this moment.
    User { state: State, window_size: Size },
    /// An event that concerns the window.
    Window(WindowEvent),
}

} // verus!
