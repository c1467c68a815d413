//! What the controller asks the host to do in answer to an event.

use vstd::prelude::*;
use crate::window::{Surface, WindowHandle};

verus! {

/// The right to deliver one finished render state to the controller from
/// outside the event loop. It can be moved but not duplicated: whoever holds
/// it can use it once.
#[derive(Debug, PartialEq, Eq)]
pub struct PendingInitToken {
    pub id: u64,
}

impl PendingInitToken {
    pub fn new(id: u64) -> (token: PendingInitToken)
        ensures
            token == (PendingInitToken { id }),
    {
        PendingInitToken { id }
    }
}

/// One thing for the host to do. Every event is answered with at most one.
#[derive(Debug, PartialEq, Eq)]
pub enum Action {
    /// Open a window on the given surface and report back what came of it.
    OpenWindow(Surface),
    /// Construct the render state for `window` without blocking the event
    /// loop, and deliver it as a user event when it is done. `proxy` goes
    /// with the task: it is the only one the controller ever hands out.
    SpawnInit { proxy: PendingInitToken, window: WindowHandle },
    /// Schedule one redraw of the window.
    RequestRedraw(WindowHandle),
    /// Leave the event loop.
    Exit,
}

} // verus!
