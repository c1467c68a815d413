//! The host's window as the controller knows it: an identity, a size, and the
//! kind of surface it is bound to.

use vstd::prelude::*;

verus! {

/// Identifier of the canvas element that a window is bound to on hosts that
/// provide the drawable surface themselves.
pub const CANVAS_ID: &'static str = "canvas";

/// Identity of a host window. Cheap to copy, so the host and the render state
/// can both hold one for the same window.
#[derive(Clone, Copy, Debug, PartialEq, Eq, Structural)]
pub struct WindowHandle {
    pub id: u64,
}

impl WindowHandle {
    pub fn new(id: u64) -> (handle: WindowHandle)
        ensures
            handle == (WindowHandle { id }),
    {
        WindowHandle { id }
    }
}

/// Dimensions of a window's drawable area, in physical pixels.
#[derive(Clone, Copy, Debug, PartialEq, Eq, Structural)]
pub struct Size {
    pub width: u32,
    pub height: u32,
}

impl Size {
    pub fn new(width: u32, height: u32) -> (size: Size)
        ensures
            size == (Size { width, height }),
    {
        Size { width, height }
    }
}

/// The drawable surface the host has to provide for a new window.
#[derive(Clone, Copy, Debug, PartialEq, Eq, Structural)]
pub enum Surface {
    /// A window of its own, opened by the host with default attributes.
    Window,
    /// The existing canvas element named [`CANVAS_ID`].
    Canvas,
}

impl Surface {
    /// The element the host has to look up before it can open the window, if
    /// the surface is not created by the host itself.
    pub fn element_id(&self) -> (id: Option<&'static str>)
        ensures
            *self is Window ==> id is None,
            *self is Canvas ==> (id matches Some(s) && s@ == CANVAS_ID@),
    {
        match self {
            Surface::Window => None,
            Surface::Canvas => Some(CANVAS_ID),
        }
    }
}

} // verus!
