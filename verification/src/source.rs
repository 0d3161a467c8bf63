//! From selectors to one capture source.
//!
//! A caller may name a window by title, a window by raw handle, or a display
//! by number. At most one of them is used: the title before the handle, the
//! handle before the display. The lookups themselves are the engine's work;
//! this module decides which lookup counts and what its answer means.

use vstd::prelude::*;
use crate::error::{Error, ErrorView, outcome_view};

verus! {

/// The target of a capture: one window or one display, never both, never neither.
#[derive(Debug, Clone, Copy, PartialEq, Eq, Structural)]
pub enum CapturableSource {
    /// A window, known by its platform handle.
    Window { handle: isize },
    /// A display, known by its number and by the handle the platform gave for it.
    Display { id: usize, handle: isize },
}

impl CapturableSource {
    /// The platform handle of the source, whichever kind it is.
    pub open spec fn raw_handle(self) -> isize {
        match self {
            CapturableSource::Window { handle } => handle,
            CapturableSource::Display { handle, .. } => handle,
        }
    }

    /// The platform handle of the source, whichever kind it is.
    pub fn get_raw_handle(&self) -> (handle: isize)
        ensures
            handle == self.raw_handle(),
    {
        match self {
            CapturableSource::Window { handle } => *handle,
            CapturableSource::Display { handle, .. } => *handle,
        }
    }

    /// Whether the source is a window.
    pub fn is_window(&self) -> (yes: bool)
        ensures
            yes == (*self is Window),
    {
        match self {
            CapturableSource::Window { .. } => true,
            CapturableSource::Display { .. } => false,
        }
    }
}

/// The handle that a window given as a 32-bit number stands for: the same number.
pub open spec fn window_handle_of(raw: i32) -> isize {
    raw as isize
}

/// The display number that a 32-bit identifier stands for. Identifiers from
/// zero up are themselves; a negative identifier is reinterpreted as an
/// unsigned number of the machine's word size, which no display carries.
pub open spec fn display_index_of(id: i32) -> usize {
    id as usize
}

/// Which lookup a caller's selectors call for, with the value to look up.
#[derive(Debug, PartialEq, Eq)]
pub enum SourceSelector {
    /// Search the open windows for the first with this title.
    WindowByName(String),
    /// Take this raw handle for a window, unchecked.
    WindowByHandle(isize),
    /// Look up the display with this number.
    Display(usize),
}

/// Mathematical model of a [`SourceSelector`].
pub enum SelectorView {
    WindowByName(Seq<char>),
    WindowByHandle(isize),
    Display(usize),
}

impl View for SourceSelector {
    type V = SelectorView;

    open spec fn view(&self) -> SelectorView {
        match *self {
            SourceSelector::WindowByName(name) => SelectorView::WindowByName(name@),
            SourceSelector::WindowByHandle(handle) => SelectorView::WindowByHandle(handle),
            SourceSelector::Display(id) => SelectorView::Display(id),
        }
    }
}

/// Model of an optional title.
pub open spec fn name_view(name: Option<&str>) -> Option<Seq<char>> {
    match name {
        Some(text) => Some(text@),
        None => None,
    }
}

impl SelectorView {
    /// The selector that counts among up to three: the window name if there
    /// is one, else the window handle, else the display id; none if all
    /// three are absent.
    pub open spec fn select(
        window_name: Option<Seq<char>>,
        window_handle: Option<i32>,
        display_id: Option<i32>,
    ) -> Option<SelectorView> {
        if let Some(name) = window_name {
            Some(SelectorView::WindowByName(name))
        } else if let Some(raw) = window_handle {
            Some(SelectorView::WindowByHandle(window_handle_of(raw)))
        } else if let Some(id) = display_id {
            Some(SelectorView::Display(display_index_of(id)))
        } else {
            None
        }
    }

    /// What the selector resolves to, given the engine's answers.
    ///
    /// `window` is the answer to the title search: the handle of the first
    /// window that matched, if any did. `display` is the answer to the display
    /// lookup: the display's handle, or the platform's complaint. A raw window
    /// handle is taken as it is, without asking the engine.
    pub open spec fn resolve(
        self,
        window: Option<isize>,
        display: Result<isize, Seq<char>>,
    ) -> Result<CapturableSource, ErrorView> {
        match self {
            SelectorView::WindowByName(name) => match window {
                Some(handle) => Ok(CapturableSource::Window { handle }),
                None => Err(ErrorView::WindowNotFound(name)),
            },
            SelectorView::WindowByHandle(handle) => Ok(CapturableSource::Window { handle }),
            SelectorView::Display(id) => match display {
                Ok(handle) => Ok(CapturableSource::Display { id, handle }),
                Err(message) => Err(ErrorView::Windows(message)),
            },
        }
    }
}

impl SourceSelector {
    /// Picks the selector that counts. Fails with
    /// [`Error::NeitherNameNorHandleIsSet`] exactly when nothing was given.
    pub fn from_options(
        window_name: Option<&str>,
        window_handle: Option<i32>,
        display_id: Option<i32>,
    ) -> (chosen: Result<SourceSelector, Error>)
        ensures
            match SelectorView::select(name_view(window_name), window_handle, display_id) {
                Some(selector) => chosen is Ok && chosen.unwrap()@ == selector,
                None => chosen is Err && chosen.unwrap_err()@ == ErrorView::NoSelector,
            },
    {
        if let Some(name) = window_name {
            Ok(SourceSelector::WindowByName(name.to_owned()))
        } else if let Some(raw) = window_handle {
            Ok(SourceSelector::WindowByHandle(raw as isize))
        } else if let Some(id) = display_id {
            Ok(SourceSelector::Display(id as usize))
        } else {
            Err(Error::NeitherNameNorHandleIsSet)
        }
    }

    /// Turns the selector and the engine's answers into the source, or into
    /// the failure that the answers amount to.
    pub fn resolve(
        self,
        window: Option<isize>,
        display: Result<isize, String>,
    ) -> (resolved: Result<CapturableSource, Error>)
        ensures
            match self@.resolve(window, outcome_view(display)) {
                Ok(source) => resolved == Ok::<CapturableSource, Error>(source),
                Err(error) => resolved is Err && resolved.unwrap_err()@ == error,
            },
    {
        match self {
            SourceSelector::WindowByName(name) => match window {
                Some(handle) => Ok(CapturableSource::Window { handle }),
                None => Err(Error::WindowNotFoundError(name)),
            },
            SourceSelector::WindowByHandle(handle) => Ok(CapturableSource::Window { handle }),
            SourceSelector::Display(id) => match display {
                Ok(handle) => Ok(CapturableSource::Display { id, handle }),
                Err(message) => Err(Error::WindowsError(message)),
            },
        }
    }
}

/// A window handle given as a 32-bit number keeps its value.
pub proof fn lemma_window_handle_keeps_value(raw: i32)
    ensures
        window_handle_of(raw) == raw,
{
}

/// A display identifier from zero up is its own display number; a negative
/// one becomes a number beyond every 32-bit identifier.
pub proof fn lemma_display_index(id: i32)
    ensures
        id >= 0 ==> display_index_of(id) == id,
        id < 0 ==> display_index_of(id) > i32::MAX,
{
    if id < 0 {
        assert(id < 0 ==> (id as usize) > 0x7fff_ffffusize) by (bit_vector);
    }
}

} // verus!
