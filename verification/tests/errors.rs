use zbl_py::{CaptureOptions, Error};

#[test]
fn message_of_window_not_found_names_the_window() {
    let error = Error::WindowNotFoundError(String::from("Notepad"));
    assert_eq!(error.message(), "window with given name not found: Notepad");
}

#[test]
fn message_of_window_not_found_with_empty_name() {
    let error = Error::WindowNotFoundError(String::new());
    assert_eq!(error.message(), "window with given name not found: ");
}

#[test]
fn message_of_windows_error_keeps_inner_text() {
    let error = Error::WindowsError(String::from("Access is denied. (0x80070005)"));
    assert_eq!(error.message(), "windows api error: Access is denied. (0x80070005)");
}

#[test]
fn message_of_frame_channel_error() {
    assert_eq!(Error::FrameChannelError.message(), "frame channel error");
}

#[test]
fn message_of_missing_selector() {
    assert_eq!(Error::NeitherNameNorHandleIsSet.message(), "neither name nor handle is set");
}

#[test]
fn message_of_not_started() {
    assert_eq!(Error::NotStarted.message(), "capture is not started");
}

#[test]
fn message_of_stale_frame() {
    assert_eq!(Error::StaleFrame.message(), "frame is no longer valid");
}

#[test]
fn message_keeps_non_ascii_names() {
    let error = Error::WindowNotFoundError(String::from("Fenêtre — 窓"));
    assert_eq!(error.message(), "window with given name not found: Fenêtre — 窓");
}

#[test]
fn error_kinds_are_told_apart() {
    assert_ne!(
        Error::WindowNotFoundError(String::from("a")),
        Error::WindowsError(String::from("a"))
    );
    assert_ne!(Error::FrameChannelError, Error::NotStarted);
    assert_ne!(Error::NeitherNameNorHandleIsSet, Error::NotStarted);
    assert_ne!(Error::StaleFrame, Error::NotStarted);
}

#[test]
fn default_options_are_no_cursor_with_border_and_cpu_access() {
    let options = CaptureOptions::default();
    assert!(!options.cursor_capture);
    assert!(options.border_required);
    assert!(options.cpu_access);
}

#[test]
fn options_keep_what_they_were_made_with() {
    let options = CaptureOptions::new(true, false, false);
    assert_eq!(
        options,
        CaptureOptions { cursor_capture: true, border_required: false, cpu_access: false }
    );
    assert_ne!(options, CaptureOptions::default());
}
