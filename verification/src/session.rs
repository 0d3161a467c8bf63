//! The capture session: built, started, asked for frames, stopped.
//!
//! A session is in one of three states. It is `Created` once the engine has
//! allocated its stream, `Started` while the engine produces frames, and
//! `Stopped` after the stream was released; a stopped session can be started
//! again. Each operation that needs the engine takes the engine's answer as
//! an argument and decides from it what becomes of the session and what the
//! caller gets.

use vstd::prelude::*;
use std::marker::PhantomData;
use std::rc::Rc;
use crate::error::{Error, ErrorView, outcome_view};
use crate::frame::{Delivery, DeliveryView, Frame, FrameMemory, FrameView};
use crate::options::CaptureOptions;
use crate::source::{CapturableSource, SelectorView, SourceSelector, name_view};

verus! {

/// Where a session is in its life.
#[derive(Debug, Clone, Copy, PartialEq, Eq, Structural)]
pub enum State {
    /// Built, never yet started.
    Created,
    /// The engine is producing frames.
    Started,
    /// The engine's stream was released.
    Stopped,
}

/// What the capture engine answered while a session was being opened.
///
/// Of the two lookups at most one is consulted, the one that the selectors
/// call for; the other may hold anything.
#[derive(Debug, PartialEq, Eq)]
pub struct EngineAnswers {
    /// Answer to the search by title: the handle of the first window that
    /// matched, if any did.
    pub window: Option<isize>,
    /// Answer to the lookup of a display: its handle, or the platform's complaint.
    pub display: Result<isize, String>,
    /// Answer to the request for a capture stream on the resolved source:
    /// granted, or the engine's complaint. Consulted only if a source was resolved.
    pub build: Result<(), String>,
}

/// Mathematical model of [`EngineAnswers`].
pub struct AnswersView {
    pub window: Option<isize>,
    pub display: Result<isize, Seq<char>>,
    pub build: Result<(), Seq<char>>,
}

impl View for EngineAnswers {
    type V = AnswersView;

    open spec fn view(&self) -> AnswersView {
        AnswersView {
            window: self.window,
            display: outcome_view(self.display),
            build: outcome_view(self.build),
        }
    }
}

/// A capture session. It is owned by one caller and bound to one thread.
#[derive(Debug, PartialEq, Eq)]
pub struct Capture {
    source: CapturableSource,
    options: CaptureOptions,
    state: State,
    epoch: u64,
    thread_bound: PhantomData<Rc<()>>,
}

/// Mathematical model of a [`Capture`].
pub struct CaptureView {
    /// What is captured.
    pub source: CapturableSource,
    /// The options the session was built with.
    pub options: CaptureOptions,
    /// Where the session is in its life.
    pub state: State,
    /// Counts, modulo 2^64, the grabs and stops that invalidated frames.
    pub epoch: nat,
}

impl View for Capture {
    type V = CaptureView;

    closed spec fn view(&self) -> CaptureView {
        CaptureView {
            source: self.source,
            options: self.options,
            state: self.state,
            epoch: self.epoch as nat,
        }
    }
}

/// One operation on a session, with what the engine answered to it.
pub enum Step {
    /// A start, with the engine's answer to the request to produce frames.
    Start(Result<(), Seq<char>>),
    /// A grab, with what the engine delivered.
    Grab(DeliveryView),
    /// A stop, with the engine's answer to the request to release the stream.
    Stop(Result<(), Seq<char>>),
}

impl Step {
    /// Whether this is a start to which the engine agreed.
    pub open spec fn starts(self) -> bool {
        self matches Step::Start(outcome) && outcome is Ok
    }
}

/// The epoch after `epoch`: one more, and zero after the largest 64-bit number.
pub open spec fn next_epoch(epoch: nat) -> nat {
    if epoch >= u64::MAX {
        0
    } else {
        epoch + 1
    }
}

/// Model of the result of opening a session.
pub open spec fn opened_view(result: Result<Capture, Error>) -> Result<CaptureView, ErrorView> {
    match result {
        Ok(session) => Ok(session@),
        Err(error) => Err(error@),
    }
}

/// Model of the result of an operation that yields no value.
pub open spec fn done_view(result: Result<(), Error>) -> Result<(), ErrorView> {
    match result {
        Ok(_) => Ok(()),
        Err(error) => Err(error@),
    }
}

/// Model of the result of a grab.
pub open spec fn grabbed_view(result: Result<Option<Frame>, Error>) -> Result<
    Option<FrameView>,
    ErrorView,
> {
    match result {
        Ok(Some(frame)) => Ok(Some(frame@)),
        Ok(None) => Ok(None),
        Err(error) => Err(error@),
    }
}

impl CaptureView {
    /// A session as it is right after its stream was allocated.
    pub open spec fn fresh(source: CapturableSource, options: CaptureOptions) -> CaptureView {
        CaptureView { source, options, state: State::Created, epoch: 0 }
    }

    /// Building a session on a resolved source: a fresh session if the engine
    /// granted the stream, else the engine's complaint as a platform failure.
    pub open spec fn built(
        source: CapturableSource,
        options: CaptureOptions,
        outcome: Result<(), Seq<char>>,
    ) -> Result<CaptureView, ErrorView> {
        match outcome {
            Ok(_) => Ok(CaptureView::fresh(source, options)),
            Err(message) => Err(ErrorView::Windows(message)),
        }
    }

    /// Opening a session from a choice of selector: no selector is a
    /// failure, a failed resolution is that failure, and a resolved source is
    /// built on.
    pub open spec fn opened(
        selector: Option<SelectorView>,
        options: CaptureOptions,
        answers: AnswersView,
    ) -> Result<CaptureView, ErrorView> {
        match selector {
            None => Err(ErrorView::NoSelector),
            Some(chosen) => match chosen.resolve(answers.window, answers.display) {
                Ok(source) => CaptureView::built(source, options, answers.build),
                Err(error) => Err(error),
            },
        }
    }

    /// Starting: the engine is always asked. If it agrees the session runs;
    /// if it refuses the session stays as it was.
    pub open spec fn start(self, outcome: Result<(), Seq<char>>) -> (CaptureView, Result<
        (),
        ErrorView,
    >) {
        match outcome {
            Ok(_) => (CaptureView { state: State::Started, ..self }, Ok(())),
            Err(message) => (self, Err(ErrorView::Windows(message))),
        }
    }

    /// Grabbing: a session that does not run fails at once and stays as it
    /// was. A running session enters a new epoch and passes on what was
    /// delivered: a frame exposed by the session's options, the end of the
    /// stream as no frame, a broken channel as a failure.
    pub open spec fn grab(self, delivery: DeliveryView) -> (CaptureView, Result<
        Option<FrameView>,
        ErrorView,
    >) {
        if self.state is Started {
            let epoch = next_epoch(self.epoch);
            let next = CaptureView { epoch, ..self };
            match delivery {
                DeliveryView::Frame(delivered) => (
                    next,
                    Ok(Some(FrameView::expose(delivered, self.options.cpu_access, epoch))),
                ),
                DeliveryView::EndOfStream => (next, Ok(None)),
                DeliveryView::ChannelBroken => (next, Err(ErrorView::FrameChannel)),
            }
        } else {
            (self, Err(ErrorView::NotStarted))
        }
    }

    /// Stopping: a session that does not run succeeds and stays as it was,
    /// whatever `outcome` holds. A running session is stopped and enters a
    /// new epoch even if the engine's teardown failed; the failure is reported.
    pub open spec fn stop(self, outcome: Result<(), Seq<char>>) -> (CaptureView, Result<
        (),
        ErrorView,
    >) {
        if self.state is Started {
            let next = CaptureView { state: State::Stopped, epoch: next_epoch(self.epoch), ..self };
            match outcome {
                Ok(_) => (next, Ok(())),
                Err(message) => (next, Err(ErrorView::Windows(message))),
            }
        } else {
            (self, Ok(()))
        }
    }

    /// Whether the memory reference of `frame` is still good: the session
    /// runs and has not left the epoch in which the frame was grabbed.
    pub open spec fn is_current(self, frame: FrameView) -> bool {
        self.state is Started && frame.epoch == self.epoch
    }

    /// The session after one operation.
    pub open spec fn step(self, step: Step) -> CaptureView {
        match step {
            Step::Start(outcome) => self.start(outcome).0,
            Step::Grab(delivery) => self.grab(delivery).0,
            Step::Stop(outcome) => self.stop(outcome).0,
        }
    }

    /// The session after a run of operations, in their order.
    pub open spec fn run(self, steps: Seq<Step>) -> CaptureView
        decreases steps.len(),
    {
        if steps.len() == 0 {
            self
        } else {
            self.run(steps.drop_last()).step(steps.last())
        }
    }
}

impl Capture {
    /// Builds a session on a resolved source. `built` is the engine's answer
    /// to the request for a capture stream on `capturable` with these
    /// options. The session starts out `Created`, in epoch zero.
    pub fn from_capturable(
        capturable: CapturableSource,
        is_cursor_capture_enabled: bool,
        is_border_required: bool,
        cpu_access: bool,
        built: Result<(), String>,
    ) -> (opened: Result<Capture, Error>)
        ensures
            opened_view(opened) == CaptureView::built(
                capturable,
                CaptureOptions {
                    cursor_capture: is_cursor_capture_enabled,
                    border_required: is_border_required,
                    cpu_access,
                },
                outcome_view(built),
            ),
    {
        match built {
            Ok(_) => Ok(
                Capture {
                    source: capturable,
                    options: CaptureOptions::new(
                        is_cursor_capture_enabled,
                        is_border_required,
                        cpu_access,
                    ),
                    state: State::Created,
                    epoch: 0,
                    thread_bound: PhantomData,
                },
            ),
            Err(message) => Err(Error::WindowsError(message)),
        }
    }

    /// Opens a session on the window with the title `name`. `found` is the
    /// engine's answer to the search for that title. Fails with
    /// [`Error::WindowNotFoundError`], carrying `name`, exactly when nothing
    /// was found; `built` is then not looked at.
    pub fn from_window_name(
        name: &str,
        found: Option<isize>,
        is_cursor_capture_enabled: bool,
        is_border_required: bool,
        cpu_access: bool,
        built: Result<(), String>,
    ) -> (opened: Result<Capture, Error>)
        ensures
            opened_view(opened) == (match found {
                Some(handle) => CaptureView::built(
                    CapturableSource::Window { handle },
                    CaptureOptions {
                        cursor_capture: is_cursor_capture_enabled,
                        border_required: is_border_required,
                        cpu_access,
                    },
                    outcome_view(built),
                ),
                None => Err(ErrorView::WindowNotFound(name@)),
            }),
    {
        match found {
            Some(handle) => Capture::from_capturable(
                CapturableSource::Window { handle },
                is_cursor_capture_enabled,
                is_border_required,
                cpu_access,
                built,
            ),
            None => Err(Error::WindowNotFoundError(name.to_owned())),
        }
    }

    /// Opens a session on the display with the number `id`. `found` is the
    /// engine's answer to the lookup of that display. Fails with
    /// [`Error::WindowsError`], carrying the platform's complaint, exactly
    /// when the lookup failed; `built` is then not looked at.
    pub fn from_display_id(
        id: usize,
        found: Result<isize, String>,
        is_cursor_capture_enabled: bool,
        is_border_required: bool,
        cpu_access: bool,
        built: Result<(), String>,
    ) -> (opened: Result<Capture, Error>)
        ensures
            opened_view(opened) == (match outcome_view(found) {
                Ok(handle) => CaptureView::built(
                    CapturableSource::Display { id, handle },
                    CaptureOptions {
                        cursor_capture: is_cursor_capture_enabled,
                        border_required: is_border_required,
                        cpu_access,
                    },
                    outcome_view(built),
                ),
                Err(message) => Err(ErrorView::Windows(message)),
            }),
    {
        match found {
            Ok(handle) => Capture::from_capturable(
                CapturableSource::Display { id, handle },
                is_cursor_capture_enabled,
                is_border_required,
                cpu_access,
                built,
            ),
            Err(message) => Err(Error::WindowsError(message)),
        }
    }

    /// Opens a session on what `selector` selects. `engine` holds the
    /// engine's answers: a window name is resolved by the answer to the
    /// title search, a window handle is taken unchecked, a display number is
    /// resolved by the answer to the display lookup; on the resolved source
    /// the session is built by the answer to the request for a stream.
    pub fn open(
        selector: SourceSelector,
        is_cursor_capture_enabled: bool,
        is_border_required: bool,
        cpu_access: bool,
        engine: EngineAnswers,
    ) -> (opened: Result<Capture, Error>)
        ensures
            opened_view(opened) == CaptureView::opened(
                Some(selector@),
                CaptureOptions {
                    cursor_capture: is_cursor_capture_enabled,
                    border_required: is_border_required,
                    cpu_access,
                },
                engine@,
            ),
    {
        let EngineAnswers { window, display, build } = engine;
        match selector {
            SourceSelector::WindowByName(name) => Capture::from_window_name(
                name.as_str(),
                window,
                is_cursor_capture_enabled,
                is_border_required,
                cpu_access,
                build,
            ),
            SourceSelector::WindowByHandle(handle) => Capture::from_capturable(
                CapturableSource::Window { handle },
                is_cursor_capture_enabled,
                is_border_required,
                cpu_access,
                build,
            ),
            SourceSelector::Display(id) => Capture::from_display_id(
                id,
                display,
                is_cursor_capture_enabled,
                is_border_required,
                cpu_access,
                build,
            ),
        }
    }

    /// Opens a session from up to three selectors, of which the first that is
    /// given counts: the window name, then the window handle, then the
    /// display id. `engine` holds the engine's answers, as for [`Capture::open`].
    ///
    /// Fails with [`Error::NeitherNameNorHandleIsSet`] exactly when no
    /// selector is given; with [`Error::WindowNotFoundError`], carrying the
    /// name, exactly when a name is given and the search found nothing; with
    /// [`Error::WindowsError`] exactly when the display that counts was not
    /// found or the engine refused to build on the resolved source.
    pub fn new(
        window_name: Option<&str>,
        window_handle: Option<i32>,
        display_id: Option<i32>,
        is_cursor_capture_enabled: bool,
        is_border_required: bool,
        cpu_access: bool,
        engine: EngineAnswers,
    ) -> (opened: Result<Capture, Error>)
        ensures
            opened_view(opened) == CaptureView::opened(
                SelectorView::select(name_view(window_name), window_handle, display_id),
                CaptureOptions {
                    cursor_capture: is_cursor_capture_enabled,
                    border_required: is_border_required,
                    cpu_access,
                },
                engine@,
            ),
            window_name is None && window_handle is None && display_id is None ==> opened_view(
                opened,
            ) == Err::<CaptureView, ErrorView>(ErrorView::NoSelector),
            window_name is Some && engine.window is None ==> opened_view(opened) == Err::<
                CaptureView,
                ErrorView,
            >(ErrorView::WindowNotFound(window_name.unwrap()@)),
            window_name is Some && engine.window is Some ==> opened_view(opened)
                == CaptureView::built(
                CapturableSource::Window { handle: engine.window.unwrap() },
                CaptureOptions {
                    cursor_capture: is_cursor_capture_enabled,
                    border_required: is_border_required,
                    cpu_access,
                },
                engine@.build,
            ),
    {
        match SourceSelector::from_options(window_name, window_handle, display_id) {
            Ok(selector) => Capture::open(
                selector,
                is_cursor_capture_enabled,
                is_border_required,
                cpu_access,
                engine,
            ),
            Err(error) => Err(error),
        }
    }

    /// The platform handle of the captured source.
    pub fn handle(&self) -> (handle: isize)
        ensures
            handle == self@.source.raw_handle(),
    {
        self.source.get_raw_handle()
    }

    /// The process that owns the captured window. `owner` is what the
    /// platform reports for the window's handle. A display has no owner.
    pub fn process_id(&self, owner: u32) -> (process: Option<u32>)
        ensures
            process == (if self@.source is Window {
                Some(owner)
            } else {
                None
            }),
    {
        if self.source.is_window() {
            Some(owner)
        } else {
            None
        }
    }

    /// What is captured.
    pub fn source(&self) -> (source: CapturableSource)
        ensures
            source == self@.source,
    {
        self.source
    }

    /// The options the session was built with.
    pub fn options(&self) -> (options: CaptureOptions)
        ensures
            options == self@.options,
    {
        self.options
    }

    /// Whether frames are mapped for the processor.
    pub fn has_cpu_access(&self) -> (mapped: bool)
        ensures
            mapped == self@.options.cpu_access,
    {
        self.options.cpu_access
    }

    /// Where the session is in its life.
    pub fn state(&self) -> (state: State)
        ensures
            state == self@.state,
    {
        self.state
    }

    /// Whether the engine is producing frames for this session. Only then
    /// do [`Capture::grab`] and [`Capture::stop`] need an answer from the engine.
    pub fn is_started(&self) -> (running: bool)
        ensures
            running == (self@.state is Started),
    {
        match self.state {
            State::Started => true,
            _ => false,
        }
    }

    /// The session's current epoch.
    pub fn epoch(&self) -> (epoch: u64)
        ensures
            epoch == self@.epoch,
    {
        self.epoch
    }

    /// Starts the session. `started` is the engine's answer to the request
    /// to produce frames. On success the session is `Started`; on failure it
    /// is as before and the engine's complaint is reported.
    pub fn start(&mut self, started: Result<(), String>) -> (done: Result<(), Error>)
        ensures
            final(self)@ == old(self)@.start(outcome_view(started)).0,
            done_view(done) == old(self)@.start(outcome_view(started)).1,
    {
        match started {
            Ok(_) => {
                self.state = State::Started;
                Ok(())
            },
            Err(message) => Err(Error::WindowsError(message)),
        }
    }

    /// Takes the next frame. `delivery` is what the engine answered when it
    /// was asked for one; it is looked at only if the session runs.
    ///
    /// A session that does not run fails with [`Error::NotStarted`]. A
    /// running session gives the delivered frame, or no frame at the end of
    /// the stream, or [`Error::FrameChannelError`] if the channel broke; in
    /// each case every frame grabbed before is no longer current.
    pub fn grab(&mut self, delivery: Delivery) -> (grabbed: Result<Option<Frame>, Error>)
        ensures
            final(self)@ == old(self)@.grab(delivery@).0,
            grabbed_view(grabbed) == old(self)@.grab(delivery@).1,
            grabbed matches Ok(Some(frame)) ==> frame@.width > 0 && frame@.height > 0
                && final(self)@.is_current(frame@),
            old(self)@.state is Started && delivery is EndOfStream ==> grabbed == Ok::<
                Option<Frame>,
                Error,
            >(None),
    {
        if !self.is_started() {
            return Err(Error::NotStarted);
        }
        self.epoch = self.epoch.wrapping_add(1);
        match delivery {
            Delivery::Frame(delivered) => Ok(
                Some(Frame::expose(delivered, self.options.cpu_access, self.epoch)),
            ),
            Delivery::EndOfStream => Ok(None),
            Delivery::ChannelBroken => Err(Error::FrameChannelError),
        }
    }

    /// Stops the session. `stopped` is the engine's answer to the request
    /// to release the stream; it is looked at only if the session runs.
    ///
    /// A session that does not run is left as it is, and that is a success.
    /// A running session is `Stopped` afterwards whatever the engine
    /// answered, no frame of it is current any more, and a failed teardown
    /// is reported as [`Error::WindowsError`].
    pub fn stop(&mut self, stopped: Result<(), String>) -> (done: Result<(), Error>)
        ensures
            final(self)@ == old(self)@.stop(outcome_view(stopped)).0,
            done_view(done) == old(self)@.stop(outcome_view(stopped)).1,
            !(old(self)@.state is Started) ==> done is Ok && final(self)@ == old(self)@,
            !(final(self)@.state is Started),
    {
        if !self.is_started() {
            return Ok(());
        }
        self.state = State::Stopped;
        self.epoch = self.epoch.wrapping_add(1);
        match stopped {
            Ok(_) => Ok(()),
            Err(message) => Err(Error::WindowsError(message)),
        }
    }

    /// Whether the memory reference of `frame` is still good in this
    /// session. Meant for frames that this session handed out: a frame
    /// carries its epoch, not a mark of its session.
    pub fn is_current(&self, frame: &Frame) -> (current: bool)
        ensures
            current == self@.is_current(frame@),
    {
        self.is_started() && frame.epoch() == self.epoch
    }

    /// What the memory reference of `frame` refers to, for as long as the
    /// frame is current in this session: for a frame mapped for the
    /// processor the readable memory, one stride for each row from the
    /// mapped address; otherwise the texture. Fails with
    /// [`Error::StaleFrame`] exactly when the frame is not current.
    pub fn memory(&self, frame: &Frame) -> (memory: Result<FrameMemory, Error>)
        ensures
            memory is Ok <==> self@.is_current(frame@),
            memory matches Err(error) ==> error@ == ErrorView::StaleFrame,
            memory matches Ok(granted) ==> (if frame@.cpu_mapped {
                granted matches FrameMemory::Mapped { address, len } && address
                    == frame@.memory_reference && len == frame@.mapped_len()
            } else {
                granted matches FrameMemory::Texture { reference } && reference
                    == frame@.memory_reference
            }),
    {
        if !self.is_current(frame) {
            Err(Error::StaleFrame)
        } else if frame.is_cpu_mapped() {
            Ok(FrameMemory::Mapped { address: frame.ptr(), len: frame.mapped_len() })
        } else {
            Ok(FrameMemory::Texture { reference: frame.ptr() })
        }
    }
}

} // verus!
