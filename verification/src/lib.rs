//! Lifecycle of a screen-capture session and the hand-off of frame memory.
//!
//! The capture engine that enumerates windows and displays, streams frames and
//! maps textures is not part of this crate. Every operation here is a pure
//! decision: it takes what the engine answered as plain values, updates the
//! session, and says what the caller gets back. The embedding program asks
//! the engine and feeds the answers in.

pub mod error;
pub mod frame;
pub mod laws;
pub mod options;
pub mod session;
pub mod source;

pub use crate::error::{Error, ErrorView};
pub use crate::frame::{
    Delivery, DeliveryView, EngineFrame, EngineFrameView, Frame, FrameMemory, FrameView,
};
pub use crate::options::CaptureOptions;
pub use crate::session::{AnswersView, Capture, CaptureView, EngineAnswers, State, Step};
pub use crate::source::{CapturableSource, SelectorView, SourceSelector};
