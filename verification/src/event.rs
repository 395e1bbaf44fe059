//! What reaches the session and what it asks for in return.
//!
//! The session never touches a file or a dialog. It is told what happened as an
//! [`Event`] and answers with the [`Action`] that its surroundings are to
//! perform; what that action gave comes back as the next event.

use vstd::prelude::*;
use vstd::string::StringExecFns;

verus! {

/// The model of an optional string.
pub open spec fn option_view(text: Option<String>) -> Option<Seq<char>> {
    match text {
        Some(text) => Some(text@),
        None => None,
    }
}

/// The model of what reading a file gave: its text, or why it failed.
pub open spec fn read_view(result: Result<String, String>) -> Result<Seq<char>, Seq<char>> {
    match result {
        Ok(text) => Ok(text@),
        Err(message) => Err(message@),
    }
}

/// The model of what writing a file gave: nothing, or why it failed.
pub open spec fn write_view(result: Result<(), String>) -> Result<(), Seq<char>> {
    match result {
        Ok(_) => Ok(()),
        Err(message) => Err(message@),
    }
}

/// The name under which the save dialog offers plain-text files.
pub open spec fn text_filter_name() -> Seq<char> {
    "Text file"@
}

/// The extension of the files that the save dialog offers.
pub open spec fn text_filter_extension() -> Seq<char> {
    "txt"@
}

/// The model of an [`IoError`].
pub enum IoErrorView {
    Read { path: Seq<char>, message: Seq<char> },
    Write { path: Seq<char>, message: Seq<char> },
}

/// A file that could not be read or written. The operation that met it ends
/// there; the session stays as it was.
#[derive(Clone, Debug, PartialEq, Eq)]
pub enum IoError {
    /// The file at `path` could not be read as text.
    Read { path: String, message: String },
    /// The text could not be written to `path`.
    Write { path: String, message: String },
}

impl View for IoError {
    type V = IoErrorView;

    open spec fn view(&self) -> IoErrorView {
        match *self {
            IoError::Read { path, message } => IoErrorView::Read {
                path: path@,
                message: message@,
            },
            IoError::Write { path, message } => IoErrorView::Write {
                path: path@,
                message: message@,
            },
        }
    }
}

/// The model of an [`Event`].
pub enum EventView {
    NewTab,
    CloseTab(int),
    ActivateTab(int),
    ToggleTheme,
    Open,
    Save,
    SaveAs,
    OpenPicked(Option<Seq<char>>),
    SavePicked(Option<Seq<char>>),
    ReadDone { path: Seq<char>, read: Result<Seq<char>, Seq<char>> },
    WriteDone { path: Seq<char>, written: Result<(), Seq<char>> },
}

/// What the user asked for, or what an [`Action`] gave.
#[derive(Debug, PartialEq, Eq)]
pub enum Event {
    /// The user asked for a fresh tab.
    NewTab,
    /// The user closed the tab at this index.
    CloseTab(usize),
    /// The user selected the tab at this index.
    ActivateTab(usize),
    /// The user flipped between the dark and the light palette.
    ToggleTheme,
    /// The user asked to open a file.
    Open,
    /// The user asked to save the active document.
    Save,
    /// The user asked to save the active document under a path to be chosen.
    SaveAs,
    /// The open dialog closed: with a path, or dismissed.
    OpenPicked(Option<String>),
    /// The save dialog closed: with a path, or dismissed.
    SavePicked(Option<String>),
    /// The file at `path` was read: its text, or the reason of the failure.
    ReadDone { path: String, read: Result<String, String> },
    /// A write to `path` ended: well, or with the reason of the failure.
    WriteDone { path: String, written: Result<(), String> },
}

impl View for Event {
    type V = EventView;

    open spec fn view(&self) -> EventView {
        match *self {
            Event::NewTab => EventView::NewTab,
            Event::CloseTab(index) => EventView::CloseTab(index as int),
            Event::ActivateTab(index) => EventView::ActivateTab(index as int),
            Event::ToggleTheme => EventView::ToggleTheme,
            Event::Open => EventView::Open,
            Event::Save => EventView::Save,
            Event::SaveAs => EventView::SaveAs,
            Event::OpenPicked(picked) => EventView::OpenPicked(option_view(picked)),
            Event::SavePicked(picked) => EventView::SavePicked(option_view(picked)),
            Event::ReadDone { path, read } => EventView::ReadDone {
                path: path@,
                read: read_view(read),
            },
            Event::WriteDone { path, written } => EventView::WriteDone {
                path: path@,
                written: write_view(written),
            },
        }
    }
}

/// The model of an [`Action`].
pub enum ActionView {
    Nothing,
    PickOpen,
    PickSave { filter_name: Seq<char>, extension: Seq<char> },
    Read { path: Seq<char> },
    Write { path: Seq<char>, text: Seq<char> },
    Report(IoErrorView),
}

impl ActionView {
    /// The request for a path to save under, among plain-text files.
    pub open spec fn pick_text_file() -> ActionView {
        ActionView::PickSave {
            filter_name: text_filter_name(),
            extension: text_filter_extension(),
        }
    }
}

/// What the session asks of its surroundings in answer to an [`Event`].
#[derive(Clone, Debug, PartialEq, Eq)]
pub enum Action {
    /// The event is dealt with.
    Nothing,
    /// Ask the user which file to open; answer with [`Event::OpenPicked`].
    PickOpen,
    /// Ask the user where to save, offering the files of this extension under
    /// this name; answer with [`Event::SavePicked`].
    PickSave { filter_name: String, extension: String },
    /// Read the file at `path` as text; answer with [`Event::ReadDone`].
    Read { path: String },
    /// Replace what the file at `path` holds by `text`; answer with
    /// [`Event::WriteDone`].
    Write { path: String, text: String },
    /// Tell the user of this failure. Nothing else is lost by it.
    Report(IoError),
}

impl Action {
    /// The request for a path to save under, among plain-text files.
    pub fn pick_text_file() -> (action: Action)
        ensures
            action@ == ActionView::pick_text_file(),
    {
        Action::PickSave {
            filter_name: String::from_str("Text file"),
            extension: String::from_str("txt"),
        }
    }
}

impl View for Action {
    type V = ActionView;

    open spec fn view(&self) -> ActionView {
        match *self {
            Action::Nothing => ActionView::Nothing,
            Action::PickOpen => ActionView::PickOpen,
            Action::PickSave { filter_name, extension } => ActionView::PickSave {
                filter_name: filter_name@,
                extension: extension@,
            },
            Action::Read { path } => ActionView::Read { path: path@ },
            Action::Write { path, text } => ActionView::Write { path: path@, text: text@ },
            Action::Report(error) => ActionView::Report(error@),
        }
    }
}

} // verus!
