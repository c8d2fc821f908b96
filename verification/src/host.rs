//! Decisions for a host-driven loop.
//!
//! In the host-integrated mode an external event source owns the thread and
//! hands the application a stream of tagged events.  Every event is first
//! forwarded to the application's own handler; this module then decides
//! what the loop itself does with it.  The embedding glue performs the
//! chosen action: it runs one tick, asks the host to stop dispatching, or
//! does nothing.

use vstd::prelude::*;

verus! {

/// A host event, as far as the loop's own bookkeeping is concerned: the
/// host says a frame may run, the window was asked to close, or anything
/// else.
#[derive(Clone, Copy, PartialEq, Eq, Structural, Debug)]
pub enum HostEvent {
    FrameAvailable,
    WindowClosed,
    Other,
}

/// What the loop does with a host event after the application's handler has
/// seen it.
#[derive(Clone, Copy, PartialEq, Eq, Structural, Debug)]
pub enum HostAction {
    RunTick,
    Exit,
    Ignore,
}

/// The loop's bookkeeping on one host event: a frame-available signal runs
/// exactly one tick, a window-close request exits after the current tick,
/// and every other event is left to the application's handler alone.
pub fn dispatch_host_event(event: &HostEvent) -> (action: HostAction)
    ensures
        action == (match event {
            HostEvent::FrameAvailable => HostAction::RunTick,
            HostEvent::WindowClosed => HostAction::Exit,
            HostEvent::Other => HostAction::Ignore,
        }),
{
    match event {
        HostEvent::FrameAvailable => HostAction::RunTick,
        HostEvent::WindowClosed => HostAction::Exit,
        HostEvent::Other => HostAction::Ignore,
    }
}

} // verus!
