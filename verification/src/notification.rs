use vstd::prelude::*;

verus! {

/// Severity of a diagnostic raised while reading a file.
#[derive(Debug, Clone, Copy, PartialEq, Eq)]
pub enum NotificationType {
    /// The feature is not implemented.
    NotImplemented,
    /// The feature is not supported.
    NotSupported,
    /// Something unexpected was found but reading goes on.
    Warning,
    /// An error that was recovered from.
    Error,
}

/// A diagnostic message raised while reading a file.
#[derive(Debug, Clone)]
pub struct Notification {
    /// The severity of the diagnostic.
    pub notification_type: NotificationType,
    /// The text of the diagnostic.
    pub message: String,
}

impl Notification {
    /// Create a notification.
    pub fn new(notification_type: NotificationType, message: String) -> (r: Self)
        ensures
            r.notification_type == notification_type,
            r.message@ == message@,
    {
        Notification { notification_type, message }
    }
}

} // verus!
