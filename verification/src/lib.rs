//! Lifecycle controller for a windowed application shell.
//!
//! An application of this kind cannot open its window before the host says
//! so, and cannot draw before a render state has been constructed for that
//! window. Some hosts can wait for the construction, others must not block
//! the thread that delivers events. [`App`] takes both through the same
//! states: uninitialized, on some hosts waiting for the render state, ready,
//! and finally shutting down.
//!
//! The controller never touches the host. Each handler takes what the event
//! loop delivered and answers with at most one [`Action`] for the host to
//! carry out: open the window and report back, construct the render state
//! off the event loop and deliver it as a user event, schedule a redraw, or
//! leave the event loop. [`model`] defines the answers for every state and
//! event, and [`trace`] proves what holds of whole runs.

pub mod action;
pub mod app;
pub mod error;
pub mod event;
pub mod model;
pub mod state;
pub mod trace;
pub mod window;

pub use crate::action::{Action, PendingInitToken};
pub use crate::app::App;
pub use crate::error::AppError;
pub use crate::event::{ElementState, Event, PhysicalKey, WindowEvent};
pub use crate::model::Lifecycle;
pub use crate::state::State;
pub use crate::window::{Size, Surface, WindowHandle, CANVAS_ID};
