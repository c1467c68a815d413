//! The render state: what exists once the application is ready to draw.

use vstd::prelude::*;
use crate::action::Action;
use crate::error::AppError;
use crate::window::{Size, WindowHandle};

verus! {

/// The application's state once it can draw. It owns the handle of the one
/// window it draws to and remembers the dimensions it was last told.
#[derive(Debug, PartialEq, Eq)]
pub struct State {
    window: WindowHandle,
    size: Option<Size>,
}

/// A render state as a mathematical value.
pub struct StateView {
    /// The window the state draws to.
    pub window: WindowHandle,
    /// The dimensions recorded by the latest resize, if there was one.
    pub size: Option<Size>,
}

impl StateView {
    /// The state right after construction: no dimensions recorded yet.
    pub open spec fn fresh(window: WindowHandle) -> StateView {
        StateView { window, size: None }
    }

    /// What constructing a render state for `window` comes to. Nothing is
    /// acquired from the host yet, so for every window it is a fresh state;
    /// the day construction can fail, this is where it will say when.
    pub open spec fn construct(window: WindowHandle) -> Result<StateView, AppError> {
        Ok(Self::fresh(window))
    }

    /// The state after it was told the drawable area's new dimensions.
    pub open spec fn resized(self, size: Size) -> StateView {
        StateView { window: self.window, size: Some(size) }
    }
}

impl View for State {
    type V = StateView;

    closed spec fn view(&self) -> StateView {
        StateView { window: self.window, size: self.size }
    }
}

impl State {
    /// Constructs the render state for `window`. The outcome is what
    /// [`StateView::construct`] says, which today is success for every
    /// window.
    pub fn new(window: WindowHandle) -> (result: Result<State, AppError>)
        ensures
            match result {
                Ok(state) => StateView::construct(window) == Ok::<StateView, AppError>(state@),
                Err(error) => StateView::construct(window) == Err::<StateView, AppError>(error),
            },
    {
        Ok(State { window, size: None })
    }

    /// Records the new dimensions of the drawable area. This is the hook at
    /// which resources that depend on the size are to be rebuilt.
    pub fn resize(&mut self, width: u32, height: u32)
        ensures
            final(self)@ == old(self)@.resized(Size { width, height }),
    {
        self.size = Some(Size { width, height });
    }

    /// Draws a frame, which for now is nothing, and asks for the next one:
    /// the returned action schedules exactly one redraw of the owned window.
    pub fn render(&mut self) -> (action: Action)
        ensures
            final(self)@ == old(self)@,
            action == Action::RequestRedraw(old(self)@.window),
    {
        Action::RequestRedraw(self.window)
    }

    /// The window this state draws to.
    pub fn window(&self) -> (window: WindowHandle)
        ensures
            window == self@.window,
    {
        self.window
    }

    /// The dimensions recorded by the latest [`State::resize`], or `None`
    /// before the first one.
    pub fn size(&self) -> (size: Option<Size>)
        ensures
            size == self@.size,
    {
        self.size
    }
}

} // verus!
