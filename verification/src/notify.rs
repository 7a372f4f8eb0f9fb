//! The host-side notification handler's decisions. For every notification
//! request the host shows a desktop notification under a fixed heading with
//! the triggering title as body, and raises a critical user-attention
//! signal on the main window. Both are best-effort: the shell swallows
//! failures of either, and this module only fixes what is attempted.

use vstd::prelude::*;
use vstd::string::StringExecFns;
use crate::requests::NotificationRequest;

verus! {

/// A desktop notification as the host hands it to the OS notification
/// service.
#[derive(Clone, Debug, PartialEq, Eq)]
pub struct Notification {
    pub heading: String,
    pub body: String,
}

/// What the notify handler does for one request.
#[derive(Clone, Debug, PartialEq, Eq)]
pub struct NotifyEffects {
    /// The notification to show.
    pub notification: Notification,
    /// Whether to raise a critical user-attention signal on the main
    /// window; always requested, so the user is drawn even when unfocused.
    pub request_critical_attention: bool,
}

/// The fixed heading every bridge notification is shown under.
pub open spec fn spec_notification_heading() -> Seq<char> {
    "New message!"@
}

/// Decide the host-side effects of one notification request.
pub fn notify_effects(req: &NotificationRequest) -> (e: NotifyEffects)
    ensures
        e.notification.heading@ == spec_notification_heading(),
        e.notification.body@ == req.title@,
        e.request_critical_attention,
{
    NotifyEffects {
        notification: Notification {
            heading: String::from_str("New message!"),
            body: req.title.clone(),
        },
        request_critical_attention: true,
    }
}

} // verus!
