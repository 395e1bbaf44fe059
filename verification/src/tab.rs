//! One open document and its mathematical model.

use vstd::prelude::*;

verus! {

/// The model of a [`Tab`]: its path and its text as sequences of characters.
pub struct TabView {
    pub opened_file: Option<Seq<char>>,
    pub content: Seq<char>,
}

impl TabView {
    /// The document that a fresh tab holds: no path, no text.
    pub open spec fn untitled() -> TabView {
        TabView { opened_file: None, content: Seq::empty() }
    }

    /// The document that holds `content` and is backed by the file at `path`.
    pub open spec fn of_file(path: Seq<char>, content: Seq<char>) -> TabView {
        TabView { opened_file: Some(path), content }
    }
}

/// One open, editable text. `opened_file` is where it lives on disk, absent
/// while the document was never saved.
#[derive(Clone, Debug, PartialEq, Eq)]
pub struct Tab {
    pub opened_file: Option<String>,
    pub content: String,
}

impl View for Tab {
    type V = TabView;

    open spec fn view(&self) -> TabView {
        TabView {
            opened_file: match self.opened_file {
                Some(path) => Some(path@),
                None => None,
            },
            content: self.content@,
        }
    }
}

impl Tab {
    /// An untitled, empty document.
    pub fn new() -> (tab: Tab)
        ensures
            tab@ == TabView::untitled(),
    {
        Tab { opened_file: None, content: String::new() }
    }

    /// A document that holds `content`, backed by the file at `path`.
    pub fn from_file(path: String, content: String) -> (tab: Tab)
        ensures
            tab@ == TabView::of_file(path@, content@),
    {
        Tab { opened_file: Some(path), content }
    }
}

} // verus!
