use vstd::prelude::*;

verus! {

/// A window-manager event, reduced to what the daemon's loop reacts to.
#[derive(Clone, Copy, PartialEq, Eq, Structural, Debug)]
pub enum DaemonEvent {
    /// A window gained the input focus.
    WindowFocus,
    /// A window event other than a focus change.
    WindowOther,
    /// The window manager is shutting down.
    Shutdown,
    /// Any other event the subscription yielded.
    Other,
}

/// What the event loop must do with one event.
#[derive(Clone, Copy, PartialEq, Eq, Structural, Debug)]
pub enum EventAction {
    /// Fetch a fresh tree snapshot and process it.
    ProcessFocusChange,
    /// Ignore the event and wait for the next one.
    Skip,
    /// Stop the loop for good: the window manager is gone.
    Stop,
}

/// The loop's rule: only a focus change triggers work, only a shutdown
/// stops the daemon, everything else is ignored.
pub open spec fn spec_event_action(e: DaemonEvent) -> EventAction {
    match e {
        DaemonEvent::WindowFocus => EventAction::ProcessFocusChange,
        DaemonEvent::Shutdown => EventAction::Stop,
        _ => EventAction::Skip,
    }
}

/// Classify one event for the loop.
pub fn event_action(e: &DaemonEvent) -> (r: EventAction)
    ensures
        r == spec_event_action(*e),
{
    match e {
        DaemonEvent::WindowFocus => EventAction::ProcessFocusChange,
        DaemonEvent::Shutdown => EventAction::Stop,
        _ => EventAction::Skip,
    }
}

} // verus!
