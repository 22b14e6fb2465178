//! Application lifecycle hooks: the decisions behind close-to-background and
//! the status notifications sent to the presentation layer. The presentation
//! work itself — hiding a window, delivering an event — happens outside;
//! delivery is best-effort and its failure never reaches the supervisor.

use vstd::prelude::*;

verus! {

/// A state transition of the supervised worker, as reported to the
/// lifecycle event sink.
#[derive(Clone, Copy, PartialEq, Eq, Structural, Debug)]
pub enum LifecycleEvent {
    /// A worker was started and survived the grace window.
    Started,
    /// The worker was stopped.
    Stopped,
}

/// The boolean payload of the status-changed notification delivered to the
/// presentation layer: true on a start, false on a stop.
pub fn lifecycle_payload(event: &LifecycleEvent) -> (b: bool)
    ensures
        b == (event is Started),
{
    match event {
        LifecycleEvent::Started => true,
        LifecycleEvent::Stopped => false,
    }
}

/// What the application shell does with a window-close request.
#[derive(Clone, Copy, PartialEq, Eq, Structural, Debug)]
pub struct CloseAction {
    /// Suppress the default close handling.
    pub prevent_close: bool,
    /// Hide the presentation layer instead.
    pub hide_window: bool,
    /// Whether the supervised worker is to be stopped.
    pub stop_worker: bool,
}

/// The close-to-background decision: a close request suppresses the default
/// close and hides the window, and never touches the supervised worker — the
/// worker is only ever stopped by an explicit stop call.
pub fn close_requested_action() -> (r: CloseAction)
    ensures
        r.prevent_close,
        r.hide_window,
        !r.stop_worker,
{
    CloseAction { prevent_close: true, hide_window: true, stop_worker: false }
}

} // verus!
