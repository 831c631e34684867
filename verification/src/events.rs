//! Events broadcast to all open windows when the shared state changes.

use vstd::prelude::*;

use crate::auth_state::UserPublic;
use crate::queue_state::AgentStatus;
use crate::queue_state::QueueStatus;
use crate::window_manager::WindowManager;

verus! {

/// A state-change notification, fanned out to every open window. Delivery is
/// fire-and-forget and performed by the embedding application; the store
/// operations only say which event must be sent. A login carries the
/// non-secret projection of the user record, never the token.
pub enum AppEvent {
    UserLoggedIn(UserPublic),
    UserLoggedOut,
    QueueStatusUpdated(QueueStatus),
    AgentStatusUpdated(AgentStatus),
}

impl AppEvent {
    /// The routing name under which this event is delivered.
    pub open spec fn spec_name(self) -> Seq<char> {
        match self {
            AppEvent::UserLoggedIn(_) => "user-logged-in"@,
            AppEvent::UserLoggedOut => "user-logged-out"@,
            AppEvent::QueueStatusUpdated(_) => "queue-status-updated"@,
            AppEvent::AgentStatusUpdated(_) => "agent-status-updated"@,
        }
    }

    pub fn name(&self) -> (r: &'static str)
        ensures
            r@ == self.spec_name(),
    {
        match self {
            AppEvent::UserLoggedIn(_) => "user-logged-in",
            AppEvent::UserLoggedOut => "user-logged-out",
            AppEvent::QueueStatusUpdated(_) => "queue-status-updated",
            AppEvent::AgentStatusUpdated(_) => "agent-status-updated",
        }
    }
}

/// One pending notification: the event name, addressed to one open window.
#[derive(Debug, PartialEq)]
pub struct Delivery {
    pub target: String,
    pub event: String,
}

/// The fan-out plan for one event: one delivery, under the event's routing
/// name, to every currently registered window, in registration order.
/// Delivery itself is fire-and-forget and performed by the embedding
/// application; a failed delivery to one window must not block the others.
pub fn plan_broadcast(event: &AppEvent, windows: &WindowManager) -> (r: Vec<Delivery>)
    ensures
        r@.len() == windows@.len(),
        forall|i: int|
            0 <= i < r@.len() ==> (#[trigger] r@[i]).target@ == windows@[i].label && r@[i].event@
                == event.spec_name(),
{
    let labels = windows.list_windows();
    let mut r: Vec<Delivery> = Vec::new();
    let mut i: usize = 0;
    while i < labels.len()
        invariant
            labels@.len() == windows@.len(),
            forall|j: int| 0 <= j < labels@.len() ==> labels@[j]@ == windows@[j].label,
            i <= labels@.len(),
            r@.len() == i,
            forall|j: int|
                0 <= j < i ==> (#[trigger] r@[j]).target@ == windows@[j].label && r@[j].event@
                    == event.spec_name(),
        decreases labels@.len() - i,
    {
        let name: String = event.name().to_owned();
        r.push(Delivery { target: labels[i].clone(), event: name });
        i += 1;
    }
    r
}

} // verus!
