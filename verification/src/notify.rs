use vstd::prelude::*;

verus! {

/// A desktop notification request: the D-Bus method call
/// (`org.freedesktop.Notifications.Notify` on the session bus) and its
/// arguments, in the order in which they are sent.
pub struct Notification {
    /// The bus name the call is sent to.
    pub destination: String,
    pub object_path: String,
    pub interface: String,
    pub member: String,
    /// Whether the call is sent without waiting for a reply.
    pub no_reply_expected: bool,
    pub app_name: String,
    pub replaces_id: u32,
    pub app_icon: String,
    pub summary: String,
    pub body: String,
    /// Action identifiers and labels, in pairs.
    pub actions: Vec<String>,
    /// Hints by name; each value is sent as a boolean variant.
    pub hints: Vec<(String, bool)>,
    /// In milliseconds; -1 leaves it to the notification server.
    pub expire_timeout: i32,
}

/// A new notification from this application with the given text, sent to
/// the freedesktop notification service without waiting for a reply: it
/// replaces no earlier one, has no icon, no actions and no hints, and
/// expires when the server decides.
pub fn notification(summary: &str, body: &str) -> (n: Notification)
    ensures
        n.destination@ == "org.freedesktop.Notifications"@,
        n.object_path@ == "/org/freedesktop/Notifications"@,
        n.interface@ == "org.freedesktop.Notifications"@,
        n.member@ == "Notify"@,
        n.no_reply_expected,
        n.actions@.len() == 0,
        n.hints@.len() == 0,
        n.app_name@ == "ricture"@,
        n.replaces_id == 0,
        n.app_icon@ == Seq::<char>::empty(),
        n.summary@ == summary@,
        n.body@ == body@,
        n.expire_timeout == -1,
{
    Notification {
        destination: String::from_str("org.freedesktop.Notifications"),
        object_path: String::from_str("/org/freedesktop/Notifications"),
        interface: String::from_str("org.freedesktop.Notifications"),
        member: String::from_str("Notify"),
        no_reply_expected: true,
        app_name: String::from_str("ricture"),
        replaces_id: 0,
        app_icon: String::new(),
        summary: String::from_str(summary),
        body: String::from_str(body),
        actions: Vec::new(),
        hints: Vec::new(),
        expire_timeout: -1,
    }
}

/// The notification for a screenshot saved to `path`.
pub fn saved_notification(path: &str) -> (n: Notification)
    ensures
        n.summary@ == "Screenshot saved"@,
        n.body@ == path@,
        n.app_name@ == "ricture"@,
{
    notification("Screenshot saved", path)
}

/// The notification for a screenshot put on the clipboard.
pub fn copied_notification() -> (n: Notification)
    ensures
        n.summary@ == "Screenshot copied"@,
        n.body@ == "Image copied to clipboard"@,
        n.app_name@ == "ricture"@,
{
    notification("Screenshot copied", "Image copied to clipboard")
}

/// The notification for a run that failed with `error`.
pub fn failure_notification(error: &str) -> (n: Notification)
    ensures
        n.summary@ == "ricture failed"@,
        n.body@ == error@,
        n.app_name@ == "ricture"@,
{
    notification("ricture failed", error)
}

} // verus!
