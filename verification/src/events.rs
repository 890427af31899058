//! Plain-value model of the window events that cross from the window thread
//! to the render thread.
//!
//! The window thread translates each event of the windowing system into a
//! [`WindowEvent`] before it is pushed onto the cross-thread queue; the
//! render thread consumes these values and nothing else. Every field is a
//! plain value, so no live reference ever crosses the thread boundary.

use vstd::prelude::*;

verus! {

/// The physical keys the renderer reacts to. Every other key is folded into
/// `Other`, which the frame loop ignores.
#[derive(Clone, Copy, Debug, PartialEq, Eq, Structural)]
pub enum KeyId {
    /// Rotates the camera counter-clockwise around the vertical axis.
    ArrowLeft,
    /// Rotates the camera clockwise around the vertical axis.
    ArrowRight,
    /// Any key without an effect on the scene.
    Other,
}

/// A window event as the render thread sees it.
#[derive(Clone, Copy, Debug, PartialEq, Eq, Structural)]
pub enum WindowEvent {
    /// The window's framebuffer now has the given size in pixels. A width
    /// or height of zero reports a minimized window.
    Resized { width: u32, height: u32 },
    /// A key changed state; `pressed` is true for a press and false for a
    /// release.
    Key { key: KeyId, pressed: bool },
    /// The user asked to close the window, or the window is gone.
    CloseRequested,
    /// Any other event of the windowing system; the renderer ignores it.
    Other,
}

/// What the window thread does with one incoming event.
#[derive(Clone, Copy, Debug, PartialEq, Eq, Structural)]
pub enum WindowDisposition {
    /// Clear the running flag and leave the message loop: the render
    /// thread will observe the flag and finish.
    Shutdown,
    /// Push the event onto the cross-thread queue for the render thread.
    Forward,
}

/// Decides how the window thread treats one event: a close or destroy
/// notification shuts the process down, everything else is forwarded to the
/// render thread through the queue.
pub fn window_disposition(event: &WindowEvent) -> (r: WindowDisposition)
    ensures
        r == WindowDisposition::Shutdown <==> event is CloseRequested,
{
    match event {
        WindowEvent::CloseRequested => WindowDisposition::Shutdown,
        _ => WindowDisposition::Forward,
    }
}

} // verus!
