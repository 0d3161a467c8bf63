//! The failures a capture session can report.

use vstd::prelude::*;
use vstd::string::StringExecFns;

verus! {

/// Why an operation on a capture session failed.
#[derive(Debug, PartialEq, Eq)]
pub enum Error {
    /// A title search found no window; carries the title that was searched for.
    WindowNotFoundError(String),
    /// The platform or the capture engine refused; carries its message.
    WindowsError(String),
    /// The channel that delivers frames broke, which is not a clean end of stream.
    FrameChannelError,
    /// No window name, window handle or display id was given.
    NeitherNameNorHandleIsSet,
    /// A frame was requested from a session that is not running.
    NotStarted,
    /// The memory of a frame was asked for after a later grab or a stop had
    /// made the frame invalid.
    StaleFrame,
}

/// Mathematical model of an [`Error`]: the same cases, with texts as sequences of characters.
pub enum ErrorView {
    WindowNotFound(Seq<char>),
    Windows(Seq<char>),
    FrameChannel,
    NoSelector,
    NotStarted,
    StaleFrame,
}

impl ErrorView {
    /// The human-readable text of the failure.
    pub open spec fn message(self) -> Seq<char> {
        match self {
            ErrorView::WindowNotFound(name) => "window with given name not found: "@ + name,
            ErrorView::Windows(inner) => "windows api error: "@ + inner,
            ErrorView::FrameChannel => "frame channel error"@,
            ErrorView::NoSelector => "neither name nor handle is set"@,
            ErrorView::NotStarted => "capture is not started"@,
            ErrorView::StaleFrame => "frame is no longer valid"@,
        }
    }
}

impl View for Error {
    type V = ErrorView;

    open spec fn view(&self) -> ErrorView {
        match *self {
            Error::WindowNotFoundError(name) => ErrorView::WindowNotFound(name@),
            Error::WindowsError(inner) => ErrorView::Windows(inner@),
            Error::FrameChannelError => ErrorView::FrameChannel,
            Error::NeitherNameNorHandleIsSet => ErrorView::NoSelector,
            Error::NotStarted => ErrorView::NotStarted,
            Error::StaleFrame => ErrorView::StaleFrame,
        }
    }
}

impl Error {
    /// The text a host sees for this failure. All kinds surface as one generic
    /// runtime failure at a host boundary; this text is what tells them apart.
    pub fn message(&self) -> (text: String)
        ensures
            text@ == self@.message(),
    {
        match self {
            Error::WindowNotFoundError(name) => {
                String::from_str("window with given name not found: ").concat(name.as_str())
            },
            Error::WindowsError(inner) => {
                String::from_str("windows api error: ").concat(inner.as_str())
            },
            Error::FrameChannelError => String::from_str("frame channel error"),
            Error::NeitherNameNorHandleIsSet => String::from_str("neither name nor handle is set"),
            Error::NotStarted => String::from_str("capture is not started"),
            Error::StaleFrame => String::from_str("frame is no longer valid"),
        }
    }
}

/// Model of what the engine answered to a request: what it gave, or the
/// text of its complaint.
pub open spec fn outcome_view<T>(outcome: Result<T, String>) -> Result<T, Seq<char>> {
    match outcome {
        Ok(value) => Ok(value),
        Err(message) => Err(message@),
    }
}

} // verus!
