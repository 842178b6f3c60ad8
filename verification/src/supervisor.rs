//! What the application does when one of its queue listeners stops.
use vstd::prelude::*;

verus! {

/// Seconds to wait before listening again after a listener failed.
pub const RESTART_DELAY_SECONDS: u64 = 5;

/// Why the application's wait on its listeners ended.
#[derive(Debug, Clone, Copy, PartialEq, Eq, Structural)]
pub enum ListenerEvent {
    /// A listener returned; `succeeded` tells whether it returned without error.
    ListenerEnded { succeeded: bool },
    /// A shutdown was requested.
    ShutdownRequested,
}

/// What the application does next.
#[derive(Debug, Clone, Copy, PartialEq, Eq, Structural)]
pub enum SupervisorAction {
    /// Listen again at once.
    Resume,
    /// Wait this many seconds, then listen again.
    PauseThenResume { seconds: u64 },
    /// Stop listening and shut down.
    Stop,
}

/// The decision after `event`: a listener that ended is started again, after a pause when
/// it failed; a shutdown request stops the application.
pub open spec fn decision(event: ListenerEvent) -> SupervisorAction {
    match event {
        ListenerEvent::ShutdownRequested => SupervisorAction::Stop,
        ListenerEvent::ListenerEnded { succeeded } => if succeeded {
            SupervisorAction::Resume
        } else {
            SupervisorAction::PauseThenResume { seconds: RESTART_DELAY_SECONDS }
        },
    }
}

/// What the application does after `event`.
pub fn supervise(event: ListenerEvent) -> (res: SupervisorAction)
    ensures
        res == decision(event),
{
    match event {
        ListenerEvent::ShutdownRequested => SupervisorAction::Stop,
        ListenerEvent::ListenerEnded { succeeded } => {
            if succeeded {
                SupervisorAction::Resume
            } else {
                SupervisorAction::PauseThenResume { seconds: RESTART_DELAY_SECONDS }
            }
        },
    }
}

/// The application stops exactly on a shutdown request: a listener that ends, with or
/// without error, is always listened to again.
pub proof fn lemma_stops_only_on_shutdown(event: ListenerEvent)
    ensures
        decision(event) == SupervisorAction::Stop <==> event == ListenerEvent::ShutdownRequested,
{
}

} // verus!
