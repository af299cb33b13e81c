use gpui_ext::notify::{window_for_notification, NotifyError};

#[test]
fn active_window_receives_the_notification() {
    assert_eq!(window_for_notification(Some(7u64)), Ok(7u64));
}

#[test]
fn no_active_window_drops_the_notification() {
    assert_eq!(window_for_notification::<u64>(None), Err(NotifyError::NoActiveWindow));
}

#[test]
fn no_active_window_message() {
    assert_eq!(NotifyError::NoActiveWindow.message(), "No window is active");
}
