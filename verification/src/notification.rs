//! The desktop notification that follows a change of the task list.

use vstd::prelude::*;
use crate::text::same_text;

verus! {

/// What a desktop notification says.
#[derive(Clone, Copy, Debug, PartialEq, Eq)]
pub struct Notification {
    pub summary: &'static str,
    pub body: &'static str,
}

/// The summary line of every notification.
pub open spec fn summary_text() -> Seq<char> {
    "TODO List Updated"@
}

/// The body of the notification for an action, named as the command line
/// names it: `add`, `delete` or `done`. Any other name gets the body for an
/// unknown action.
pub open spec fn body_text(action: Seq<char>) -> Seq<char> {
    if action == "add"@ {
        "You added item successfully."@
    } else if action == "delete"@ {
        "You delete item successfully."@
    } else if action == "done"@ {
        "You update the item succesfully."@
    } else {
        "Unknown notification type."@
    }
}

/// Makes up the notification to be sent after an action. Delivering it is
/// left to the caller.
pub fn send_notification(notification_type: &str) -> (r: Notification)
    ensures
        r.summary@ == summary_text(),
        r.body@ == body_text(notification_type@),
{
    let body = if same_text(notification_type, "add") {
        "You added item successfully."
    } else if same_text(notification_type, "delete") {
        "You delete item successfully."
    } else if same_text(notification_type, "done") {
        "You update the item succesfully."
    } else {
        "Unknown notification type."
    };
    Notification { summary: "TODO List Updated", body }
}

} // verus!
