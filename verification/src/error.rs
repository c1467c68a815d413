//! Failures of the start-up handshake between the host and the controller.

use vstd::prelude::*;

verus! {

/// Why the controller could not get from a resume signal to a render state.
#[derive(Clone, Copy, Debug, PartialEq, Eq, Structural)]
pub enum AppError {
    /// Constructing the render state failed: the host could not provide
    /// something to draw with.
    Initialization,
    /// The drawable surface the window had to be bound to does not exist.
    SurfaceLookup,
}

} // verus!
