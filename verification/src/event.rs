//! Window-event decisions of the driving loop.
//!
//! The platform glue receives events from the windowing toolkit, reduces
//! each to what the decision reads of it, and performs the action
//! decided here: stop the loop, resize the context, or render a frame.

use vstd::prelude::*;

verus! {

/// What the driving loop reads of one window event.
#[derive(Clone, Copy, PartialEq, Eq, Structural, Debug)]
pub enum WindowEvent {
    /// The user asked to close the window.
    CloseRequested,
    /// A key changed state; only the Escape key matters here.
    KeyboardInput { escape: bool, pressed: bool },
    /// The window's physical size changed.
    Resized { width: u32, height: u32 },
    /// The window should be redrawn.
    RedrawRequested,
    /// Anything else.
    Other,
}

/// What the driving loop does in response to one window event.
#[derive(Clone, Copy, PartialEq, Eq, Structural, Debug)]
pub enum LoopAction {
    /// Stop the loop; no further frame is rendered.
    Exit,
    /// Resize the context before the next frame.
    Resize { width: u32, height: u32 },
    /// Render one frame.
    Redraw,
    /// Do nothing.
    Ignore,
}

/// The action each event calls for: exit on a close request or an
/// Escape key-press, resize on a size change, redraw when asked to,
/// nothing otherwise.
pub open spec fn action_for(e: WindowEvent) -> LoopAction {
    match e {
        WindowEvent::CloseRequested => LoopAction::Exit,
        WindowEvent::KeyboardInput { escape, pressed } => if escape && pressed {
            LoopAction::Exit
        } else {
            LoopAction::Ignore
        },
        WindowEvent::Resized { width, height } => LoopAction::Resize { width, height },
        WindowEvent::RedrawRequested => LoopAction::Redraw,
        WindowEvent::Other => LoopAction::Ignore,
    }
}

/// Decide what the driving loop does with one window event.
pub fn handle_window_event(e: &WindowEvent) -> (a: LoopAction)
    ensures
        a == action_for(*e),
{
    match e {
        WindowEvent::CloseRequested => LoopAction::Exit,
        WindowEvent::KeyboardInput { escape, pressed } => {
            if *escape && *pressed {
                LoopAction::Exit
            } else {
                LoopAction::Ignore
            }
        },
        WindowEvent::Resized { width, height } => LoopAction::Resize {
            width: *width,
            height: *height,
        },
        WindowEvent::RedrawRequested => LoopAction::Redraw,
        WindowEvent::Other => LoopAction::Ignore,
    }
}

} // verus!
