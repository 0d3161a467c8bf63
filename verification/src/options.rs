//! Configuration of a capture session.

use vstd::prelude::*;

verus! {

/// What a session asks of the capture engine. Fixed once the session is built.
#[derive(Debug, Clone, Copy, PartialEq, Eq, Structural)]
pub struct CaptureOptions {
    /// Whether the mouse cursor is drawn into the frames.
    pub cursor_capture: bool,
    /// Whether the system draws its indicator border around the captured region.
    pub border_required: bool,
    /// Whether frames are mapped into memory that the processor can read.
    pub cpu_access: bool,
}

impl CaptureOptions {
    /// The options used when the caller names none: no cursor, with border,
    /// frames readable by the processor.
    pub open spec fn standard() -> CaptureOptions {
        CaptureOptions { cursor_capture: false, border_required: true, cpu_access: true }
    }

    pub fn new(cursor_capture: bool, border_required: bool, cpu_access: bool) -> (options: Self)
        ensures
            options == (CaptureOptions { cursor_capture, border_required, cpu_access }),
    {
        CaptureOptions { cursor_capture, border_required, cpu_access }
    }
}

impl Default for CaptureOptions {
    fn default() -> (options: Self)
        ensures
            options == CaptureOptions::standard(),
    {
        CaptureOptions { cursor_capture: false, border_required: true, cpu_access: true }
    }
}

} // verus!
