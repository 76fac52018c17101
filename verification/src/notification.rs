//! Settings of the notifications and what changing them sets off.

use vstd::prelude::*;

verus! {

/// How long a notification stays, unless it says otherwise: milliseconds.
pub const DEFAULT_TIMEOUT_MS: u64 = 5_000;

/// What the user did with a notification.
#[derive(Clone, Copy, Debug, PartialEq, Eq)]
pub enum NotificationMutation {
    Confirm,
    Dismiss,
}

/// What becomes of the handler that keeps the application alive when the
/// user quits.
#[derive(Clone, Copy, Debug, PartialEq, Eq)]
pub enum QuitHandler {
    /// Install it.
    Install,
    /// Take it away.
    Reset,
    /// Leave it as it is.
    Keep,
}

/// A stored flag, `false` where nothing is stored.
pub fn flag_or_default(stored: Option<bool>) -> (out: bool)
    ensures
        out == match stored {
            Some(b) => b,
            None => false,
        },
{
    match stored {
        Some(b) => b,
        None => false,
    }
}

/// The stored list of ignored platforms, empty where nothing is stored.
pub fn platforms_or_default(stored: Option<Vec<String>>) -> (out: Vec<String>)
    ensures
        out@ == match stored {
            Some(list) => list@,
            None => Seq::<String>::empty(),
        },
{
    match stored {
        Some(list) => list,
        None => Vec::new(),
    }
}

/// What becomes of the quit handler when one kind of notification is
/// switched: on installs it; off takes it away where the other kind is on.
pub fn quit_handler_change(enabled: bool, other_enabled: bool) -> (out: QuitHandler)
    ensures
        out == if enabled {
            QuitHandler::Install
        } else if other_enabled {
            QuitHandler::Reset
        } else {
            QuitHandler::Keep
        },
{
    if enabled {
        QuitHandler::Install
    } else if other_enabled {
        QuitHandler::Reset
    } else {
        QuitHandler::Keep
    }
}

/// How long a notification stays, in milliseconds.
pub fn timeout_or_default(timeout_ms: Option<u64>) -> (out: u64)
    ensures
        out == match timeout_ms {
            Some(t) => t,
            None => DEFAULT_TIMEOUT_MS,
        },
{
    match timeout_ms {
        Some(t) => t,
        None => DEFAULT_TIMEOUT_MS,
    }
}

/// The name under which what the user did is counted.
pub fn analytics_event(mutation: NotificationMutation) -> (name: &'static str)
    ensures
        name@ == match mutation {
            NotificationMutation::Confirm => "notification_confirm"@,
            NotificationMutation::Dismiss => "notification_dismiss"@,
        },
{
    match mutation {
        NotificationMutation::Confirm => "notification_confirm",
        NotificationMutation::Dismiss => "notification_dismiss",
    }
}

} // verus!
