use vstd::prelude::*;

verus! {

/// Why a notification could not be shown.
#[derive(PartialEq, Eq, Debug, Clone, Copy)]
pub enum NotifyError {
    /// No window is active, so the notification was dropped.
    NoActiveWindow,
}

impl NotifyError {
    /// The message reported for this error.
    pub fn message(&self) -> (msg: String)
        ensures
            msg@ == "No window is active"@,
    {
        match self {
            NotifyError::NoActiveWindow => String::from_str("No window is active"),
        }
    }
}

/// The window that receives a notification: the active one, if any;
/// without one the notification is dropped with an error.
pub fn window_for_notification<W>(active: Option<W>) -> (target: Result<W, NotifyError>)
    ensures
        match active {
            Some(w) => target == Ok::<W, NotifyError>(w),
            None => target == Err::<W, NotifyError>(NotifyError::NoActiveWindow),
        },
{
    match active {
        Some(w) => Ok(w),
        None => Err(NotifyError::NoActiveWindow),
    }
}

} // verus!
