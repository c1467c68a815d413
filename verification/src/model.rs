//! The controller as a state machine over mathematical values: its states,
//! and for every state and event the next state and the host's task.

use vstd::prelude::*;
use crate::action::{Action, PendingInitToken};
use crate::error::AppError;
use crate::event::{Event, WindowEvent};
use crate::state::StateView;
use crate::window::{Size, Surface, WindowHandle};

verus! {

/// Where the controller stands between start and exit.
#[derive(Clone, Copy, Debug, PartialEq, Eq, Structural)]
pub enum Lifecycle {
    /// No window yet: the host has not resumed the application, or has not
    /// answered the request for a window.
    Uninitialized,
    /// The window exists and the render state is under construction off the
    /// event loop.
    AwaitingAsyncInit,
    /// The render state exists; window events reach it.
    Ready,
    /// The host was told to leave the event loop. Nothing happens any more.
    ShuttingDown,
}

/// The controller as a mathematical value. Each state holds exactly what
/// exists in it: the token only before it is handed out, the render state
/// only while events may reach it.
pub enum AppView {
    /// `proxy` decides how the render state will be constructed: with a token
    /// off the event loop, without one on the spot.
    Uninitialized { proxy: Option<PendingInitToken> },
    AwaitingAsyncInit,
    Ready { state: StateView },
    ShuttingDown,
}

/// The outcome of one event: the state the controller is in afterwards, and
/// what it answers, which is an action for the host, nothing, or a failure.
pub struct Step {
    pub next: AppView,
    pub output: Result<Option<Action>, AppError>,
}

impl AppView {
    pub open spec fn lifecycle(self) -> Lifecycle {
        match self {
            AppView::Uninitialized { .. } => Lifecycle::Uninitialized,
            AppView::AwaitingAsyncInit => Lifecycle::AwaitingAsyncInit,
            AppView::Ready { .. } => Lifecycle::Ready,
            AppView::ShuttingDown => Lifecycle::ShuttingDown,
        }
    }

    /// The token, as long as the controller still holds it.
    pub open spec fn proxy(self) -> Option<PendingInitToken> {
        match self {
            AppView::Uninitialized { proxy } => proxy,
            _ => None,
        }
    }

    /// The event is dropped: same state, nothing for the host to do.
    pub open spec fn ignore(self) -> Step {
        Step { next: self, output: Ok(None) }
    }

    /// The host is told to leave the event loop, once and for all.
    pub open spec fn exit(self) -> Step {
        Step { next: AppView::ShuttingDown, output: Ok(Some(Action::Exit)) }
    }

    /// The surface the first window is bound to: with a token the host
    /// provides the canvas, without one it opens a window of its own.
    pub open spec fn surface(proxy: Option<PendingInitToken>) -> Surface {
        if proxy is Some {
            Surface::Canvas
        } else {
            Surface::Window
        }
    }

    /// The host signals that windows can be opened. While there is no window
    /// the controller asks for one; afterwards the signal means nothing.
    pub open spec fn on_resumed(self) -> Step {
        match self {
            AppView::Uninitialized { proxy } => Step {
                next: self,
                output: Ok(Some(Action::OpenWindow(Self::surface(proxy)))),
            },
            _ => self.ignore(),
        }
    }

    /// The host answers the request for a window. Without a surface there is
    /// nothing to start with. With a window and a token, construction is
    /// handed to the host together with the token. With a window alone the
    /// render state is constructed on the spot; a failure to construct it is
    /// passed on and leaves the controller as it was.
    pub open spec fn on_window_created(self, window: Option<WindowHandle>) -> Step {
        match self {
            AppView::Uninitialized { proxy } => match window {
                None => Step { next: self, output: Err(AppError::SurfaceLookup) },
                Some(window) => match proxy {
                    Some(proxy) => Step {
                        next: AppView::AwaitingAsyncInit,
                        output: Ok(Some(Action::SpawnInit { proxy, window })),
                    },
                    None => match StateView::construct(window) {
                        Ok(state) => Step { next: AppView::Ready { state }, output: Ok(None) },
                        Err(error) => Step { next: self, output: Err(error) },
                    },
                },
            },
            _ => self.ignore(),
        }
    }

    /// A finished render state arrives. The controller takes it only while it
    /// waits for one: it records the window's current size in it, asks for a
    /// first frame, and is ready.
    pub open spec fn on_user_event(self, state: StateView, window_size: Size) -> Step {
        match self {
            AppView::AwaitingAsyncInit => Step {
                next: AppView::Ready { state: state.resized(window_size) },
                output: Ok(Some(Action::RequestRedraw(state.window))),
            },
            _ => self.ignore(),
        }
    }

    /// A window event arrives. Without a render state it is dropped. With
    /// one, a request to exit ends the application, a resize is recorded in
    /// the render state, a redraw request is answered with the request for
    /// the next frame, and everything else changes nothing.
    pub open spec fn on_window_event(self, event: WindowEvent) -> Step {
        match self {
            AppView::Ready { state } => if event.requests_exit() {
                self.exit()
            } else {
                match event {
                    WindowEvent::Resized(size) => Step {
                        next: AppView::Ready { state: state.resized(size) },
                        output: Ok(None),
                    },
                    WindowEvent::RedrawRequested => Step {
                        next: self,
                        output: Ok(Some(Action::RequestRedraw(state.window))),
                    },
                    _ => self.ignore(),
                }
            },
            _ => self.ignore(),
        }
    }

    /// The events that mean nothing in this state: a resume signal or a
    /// window report once the window was asked for and delivered, a render
    /// state that nobody waits for, a window event without a render state to
    /// receive it, and the window events that mean nothing in any state.
    pub open spec fn ignores(self, event: Event) -> bool {
        match event {
            Event::Resumed => !(self is Uninitialized),
            Event::WindowCreated(_) => !(self is Uninitialized),
            Event::User { .. } => !(self is AwaitingAsyncInit),
            Event::Window(event) => !(self is Ready) || event.is_inert(),
        }
    }

    /// The transition for any event.
    pub open spec fn step(self, event: Event) -> Step {
        match event {
            Event::Resumed => self.on_resumed(),
            Event::WindowCreated(window) => self.on_window_created(window),
            Event::User { state, window_size } => self.on_user_event(state@, window_size),
            Event::Window(event) => self.on_window_event(event),
        }
    }
}

} // verus!
