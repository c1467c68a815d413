//! The controller itself: the state machine of [`crate::model`], executable.

use vstd::prelude::*;
use crate::action::{Action, PendingInitToken};
use crate::error::AppError;
use crate::event::{Event, WindowEvent};
use crate::model::{AppView, Lifecycle, Step};
use crate::state::State;
use crate::window::{Size, Surface, WindowHandle};

verus! {

#[derive(Debug)]
enum Phase {
    Uninitialized { proxy: Option<PendingInitToken> },
    AwaitingAsyncInit,
    Ready(State),
    ShuttingDown,
}

/// The root object of the application: it receives every event of the host
/// event loop and owns the render state once there is one.
#[derive(Debug)]
pub struct App {
    phase: Phase,
}

impl View for App {
    type V = AppView;

    closed spec fn view(&self) -> AppView {
        match self.phase {
            Phase::Uninitialized { proxy } => AppView::Uninitialized { proxy },
            Phase::AwaitingAsyncInit => AppView::AwaitingAsyncInit,
            Phase::Ready(state) => AppView::Ready { state: state@ },
            Phase::ShuttingDown => AppView::ShuttingDown,
        }
    }
}

impl App {
    /// A controller that has seen no event yet. With a token the render
    /// state will be constructed off the event loop and delivered as a user
    /// event; without one it is constructed while the host waits.
    pub fn new(proxy: Option<PendingInitToken>) -> (app: App)
        ensures
            app@ == (AppView::Uninitialized { proxy }),
    {
        App { phase: Phase::Uninitialized { proxy } }
    }

    /// The host signals that windows can be opened.
    ///
    /// Before there is a window, the answer is the request to open one, on
    /// the canvas if a token is held and as a window of the host's own
    /// otherwise. The host reports the outcome to [`App::window_created`].
    /// Once there is a window the signal is ignored.
    pub fn resumed(&mut self) -> (action: Option<Action>)
        ensures
            old(self)@.on_resumed() == (Step { next: final(self)@, output: Ok(action) }),
    {
        match &self.phase {
            Phase::Uninitialized { proxy } => {
                let surface = if proxy.is_some() {
                    Surface::Canvas
                } else {
                    Surface::Window
                };
                Some(Action::OpenWindow(surface))
            },
            _ => None,
        }
    }

    /// The host reports what came of the request for a window: the window,
    /// or `None` where the surface it had to be bound to does not exist.
    ///
    /// Only a controller without a window listens. A missing surface is the
    /// error `SurfaceLookup` and changes nothing. With a window and a token,
    /// the token leaves the controller for good inside `SpawnInit` and the
    /// controller waits for the user event. With a window and no token the
    /// render state is constructed here and the controller is ready; should
    /// the construction fail, the failure is returned and nothing changes.
    pub fn window_created(&mut self, window: Option<WindowHandle>) -> (result: Result<
        Option<Action>,
        AppError,
    >)
        ensures
            old(self)@.on_window_created(window) == (Step {
                next: final(self)@,
                output: result,
            }),
    {
        match &mut self.phase {
            Phase::Uninitialized { proxy } => {
                let window = match window {
                    Some(window) => window,
                    None => return Err(AppError::SurfaceLookup),
                };
                match proxy.take() {
                    Some(proxy) => {
                        self.phase = Phase::AwaitingAsyncInit;
                        Ok(Some(Action::SpawnInit { proxy, window }))
                    },
                    None => {
                        let state = match State::new(window) {
                            Ok(state) => state,
                            Err(error) => return Err(error),
                        };
                        self.phase = Phase::Ready(state);
                        Ok(None)
                    },
                }
            },
            _ => Ok(None),
        }
    }

    /// The render state that was constructed off the event loop arrives,
    /// with the size the window has now.
    ///
    /// A controller that waits for it asks for a first frame of the state's
    /// window, records the size in the state, keeps it, and is ready. In
    /// every other state the delivery is ignored and the state it carried is
    /// dropped: there is one hand-over, and a second one changes nothing.
    pub fn user_event(&mut self, event: State, window_size: Size) -> (action: Option<Action>)
        ensures
            old(self)@.on_user_event(event@, window_size) == (Step {
                next: final(self)@,
                output: Ok(action),
            }),
    {
        let mut event = event;
        match &self.phase {
            Phase::AwaitingAsyncInit => {
                let redraw = Action::RequestRedraw(event.window());
                event.resize(window_size.width, window_size.height);
                self.phase = Phase::Ready(event);
                Some(redraw)
            },
            _ => None,
        }
    }

    /// An event that concerns the window arrives.
    ///
    /// Without a render state it is dropped. With one: a close request, or
    /// `Escape` going down, ends the application, and the answer is `Exit`;
    /// a resize is recorded in the render state; a redraw request is passed
    /// to [`State::render`], whose action is the answer; every other event
    /// changes nothing.
    pub fn window_event(&mut self, event: WindowEvent) -> (action: Option<Action>)
        ensures
            old(self)@.on_window_event(event) == (Step {
                next: final(self)@,
                output: Ok(action),
            }),
    {
        let state = match &mut self.phase {
            Phase::Ready(state) => state,
            _ => return None,
        };
        if event.requests_exit() {
            self.phase = Phase::ShuttingDown;
            return Some(Action::Exit);
        }
        match event {
            WindowEvent::Resized(size) => {
                state.resize(size.width, size.height);
                None
            },
            WindowEvent::RedrawRequested => Some(state.render()),
            _ => None,
        }
    }

    /// Hands any event to the method that is there for it.
    pub fn dispatch(&mut self, event: Event) -> (result: Result<Option<Action>, AppError>)
        ensures
            old(self)@.step(event) == (Step { next: final(self)@, output: result }),
    {
        match event {
            Event::Resumed => Ok(self.resumed()),
            Event::WindowCreated(window) => self.window_created(window),
            Event::User { state, window_size } => Ok(self.user_event(state, window_size)),
            Event::Window(event) => Ok(self.window_event(event)),
        }
    }

    /// Where the controller stands.
    pub fn lifecycle(&self) -> (lifecycle: Lifecycle)
        ensures
            lifecycle == self@.lifecycle(),
    {
        match &self.phase {
            Phase::Uninitialized { .. } => Lifecycle::Uninitialized,
            Phase::AwaitingAsyncInit => Lifecycle::AwaitingAsyncInit,
            Phase::Ready(_) => Lifecycle::Ready,
            Phase::ShuttingDown => Lifecycle::ShuttingDown,
        }
    }

    /// The render state, while the controller is ready.
    pub fn state(&self) -> (state: Option<&State>)
        ensures
            match state {
                Some(state) => self@ == (AppView::Ready { state: state@ }),
                None => !(self@ is Ready),
            },
    {
        match &self.phase {
            Phase::Ready(state) => Some(state),
            _ => None,
        }
    }
}

} // verus!
