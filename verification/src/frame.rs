//! The rule that ends the frame loop.
//!
//! After each frame the renderer hands over the window events that arrived
//! while the frame was drawn. The loop goes on until one of them asks for the
//! window to be closed.

use vstd::prelude::*;

verus! {

/// A window event, as far as the frame loop tells events apart.
#[derive(Clone, Copy, Debug, PartialEq, Eq, Structural)]
pub enum WindowEvent {
    /// The window was asked to close.
    Closed,
    /// Any other event.
    Other,
}

/// What the frame loop does next.
#[derive(Clone, Copy, Debug, PartialEq, Eq, Structural)]
pub enum Flow {
    /// Draw another frame.
    Continue,
    /// Leave the loop.
    Exit,
}

/// Whether one of `events` asks for the window to be closed.
pub open spec fn close_requested(events: Seq<WindowEvent>) -> bool {
    exists|i: int| 0 <= i < events.len() && events[i] == WindowEvent::Closed
}

/// What follows a frame during which `events` arrived: the loop is left
/// exactly if one of them is `Closed`.
pub open spec fn flow_after(events: Seq<WindowEvent>) -> Flow {
    if close_requested(events) {
        Flow::Exit
    } else {
        Flow::Continue
    }
}

/// Decides what follows a frame during which `events` arrived.
pub fn after_frame(events: &[WindowEvent]) -> (flow: Flow)
    ensures
        flow == flow_after(events@),
{
    let mut i: usize = 0;
    while i < events.len()
        invariant
            i <= events.len(),
            forall|j: int| 0 <= j < i ==> events@[j] != WindowEvent::Closed,
        decreases events.len() - i,
    {
        match events[i] {
            WindowEvent::Closed => {
                return Flow::Exit;
            },
            WindowEvent::Other => {},
        }
        i += 1;
    }
    Flow::Continue
}

} // verus!
