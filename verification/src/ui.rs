//! What each event of the window leads to.

use crate::app::{App, Size};
use vstd::prelude::*;

verus! {

/// The pause after each frame that was asked for, in milliseconds. It caps
/// the rate of the simulation and nothing depends on it.
pub const FRAME_DELAY_MS: u64 = 50;

/// An event of the window, reduced to what the run depends on.
#[derive(Clone, Copy, Debug, PartialEq, Eq, Structural)]
pub enum WindowEvent {
    /// The window wants to be drawn.
    RedrawRequested,
    /// The window was asked to close.
    CloseRequested,
    /// A key changed: whether it is now pressed, and whether it is Escape.
    KeyboardInput { pressed: bool, escape: bool },
    /// The window has a new size.
    Resized(Size),
    /// The scale factor changed; the window's inner size is now this.
    ScaleFactorChanged { inner_size: Size },
    /// All pending events are handled.
    AboutToWait,
    /// Any other event.
    Other,
}

/// What the run loop is to do about an event.
#[derive(Clone, Copy, Debug, PartialEq, Eq, Structural)]
pub enum Command {
    /// Ask the surface for a frame target, hand the outcome to the
    /// scheduler, carry out what it asks for, then pause.
    Frame,
    /// Configure the surface with this size.
    Reconfigure(Size),
    /// Ask the window to request a redraw.
    RequestRedraw,
    /// Leave the run loop.
    Exit,
    /// Nothing.
    Nothing,
}

/// The size that an event brings, if it brings one.
pub open spec fn new_size(event: WindowEvent) -> Option<Size> {
    match event {
        WindowEvent::Resized(size) => Some(size),
        WindowEvent::ScaleFactorChanged { inner_size } => Some(inner_size),
        _ => None,
    }
}

/// The command that answers an event.
///
/// A redraw runs a frame. A request to close ends the run, and so does
/// pressing Escape. A new size with an area is taken over and the surface
/// configured with it; one without area is passed over. When the window has
/// nothing left to handle, the next redraw is requested.
pub open spec fn command_for(event: WindowEvent) -> Command {
    match event {
        WindowEvent::RedrawRequested => Command::Frame,
        WindowEvent::CloseRequested => Command::Exit,
        WindowEvent::KeyboardInput { pressed, escape } => if pressed && escape {
            Command::Exit
        } else {
            Command::Nothing
        },
        WindowEvent::Resized(size) => if size.presentable() {
            Command::Reconfigure(size)
        } else {
            Command::Nothing
        },
        WindowEvent::ScaleFactorChanged { inner_size } => if inner_size.presentable() {
            Command::Reconfigure(inner_size)
        } else {
            Command::Nothing
        },
        WindowEvent::AboutToWait => Command::RequestRedraw,
        WindowEvent::Other => Command::Nothing,
    }
}

/// Takes note of an event of the window and answers with the command for it.
///
/// Only an event that brings a size touches the scheduler, and only its
/// surface: the frame in flight, the parity and the pipelines stay as they
/// were.
pub fn handle(app: &mut App, event: WindowEvent) -> (command: Command)
    ensures
        command == command_for(event),
        *final(app) == (App {
            surface: match new_size(event) {
                Some(size) => old(app).surface.resized(size),
                None => old(app).surface,
            },
            ..*old(app)
        }),
{
    match event {
        WindowEvent::RedrawRequested => Command::Frame,
        WindowEvent::CloseRequested => Command::Exit,
        WindowEvent::KeyboardInput { pressed, escape } => {
            if pressed && escape {
                Command::Exit
            } else {
                Command::Nothing
            }
        },
        WindowEvent::Resized(size) => {
            if app.resize(size) {
                Command::Reconfigure(size)
            } else {
                Command::Nothing
            }
        },
        WindowEvent::ScaleFactorChanged { inner_size } => {
            if app.resize(inner_size) {
                Command::Reconfigure(inner_size)
            } else {
                Command::Nothing
            }
        },
        WindowEvent::AboutToWait => Command::RequestRedraw,
        WindowEvent::Other => Command::Nothing,
    }
}

} // verus!
