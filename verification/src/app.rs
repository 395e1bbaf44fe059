//! The editor session: the open tabs, which of them is active, and the palette.
//!
//! [`AppView`] is the session as mathematics, with one function for each thing
//! that can happen to it. [`MyApp`] is the session that runs; each of its
//! methods is bound to the function of the same name on its model.

use vstd::prelude::*;
use vstd::string::StringExecFns;
use crate::event::option_view;
use crate::event::read_view;
use crate::event::write_view;
use crate::event::Action;
use crate::event::ActionView;
use crate::event::Event;
use crate::event::EventView;
use crate::event::IoError;
use crate::event::IoErrorView;
use crate::path::file_from_path;
use crate::path::file_name;
use crate::tab::Tab;
use crate::tab::TabView;

verus! {

/// The model of a session: the tabs in the order in which they are shown, the
/// index of the active one, and the palette.
pub struct AppView {
    pub tabs: Seq<TabView>,
    pub current_tab: int,
    pub is_dark_mode: bool,
}

impl AppView {
    /// While a tab is open, the active index names one of the tabs. With none
    /// open there is no active document, and the index names nothing.
    pub open spec fn wf(self) -> bool {
        self.tabs.len() > 0 ==> 0 <= self.current_tab < self.tabs.len()
    }

    /// The session at startup: one untitled, empty tab, in the dark palette.
    pub open spec fn initial() -> AppView {
        AppView { tabs: seq![TabView::untitled()], current_tab: 0, is_dark_mode: true }
    }

    /// The active document.
    pub open spec fn active(self) -> TabView
        recommends
            self.wf(),
            self.tabs.len() > 0,
    {
        self.tabs[self.current_tab]
    }

    /// The session with `tab` added behind the others and made active.
    pub open spec fn push_tab(self, tab: TabView) -> AppView {
        AppView { tabs: self.tabs.push(tab), current_tab: self.tabs.len() as int, ..self }
    }

    /// The session with the active document replaced by `tab`; with no tab
    /// open, the session itself.
    pub open spec fn set_active(self, tab: TabView) -> AppView {
        if self.tabs.len() > 0 {
            AppView { tabs: self.tabs.update(self.current_tab, tab), ..self }
        } else {
            self
        }
    }

    /// A fresh untitled tab is added behind the others and made active.
    pub open spec fn new_tab(self) -> AppView {
        self.push_tab(TabView::untitled())
    }

    /// The tab at `index` is closed. The active index follows the document it
    /// named: it moves down by one where a tab before it was closed. Where the
    /// active tab itself was closed, the tab before it becomes active, and the
    /// tab after it where it was the first.
    pub open spec fn remove_tab(self, index: int) -> AppView
        recommends
            0 <= index < self.tabs.len(),
    {
        AppView {
            tabs: self.tabs.remove(index),
            current_tab: if index < self.current_tab || (index == self.current_tab && index
                != 0) {
                self.current_tab - 1
            } else {
                self.current_tab
            },
            ..self
        }
    }

    /// The tab at `index` becomes active.
    pub open spec fn activate_tab(self, index: int) -> AppView
        recommends
            0 <= index < self.tabs.len(),
    {
        AppView { current_tab: index, ..self }
    }

    /// The other palette is chosen.
    pub open spec fn toggle_theme(self) -> AppView {
        AppView { is_dark_mode: !self.is_dark_mode, ..self }
    }

    /// The text of the active document becomes `text`.
    pub open spec fn set_content(self, text: Seq<char>) -> AppView {
        self.set_active(TabView { content: text, ..self.active() })
    }

    /// The active document is from now on backed by the file at `path`.
    pub open spec fn set_path(self, path: Seq<char>) -> AppView {
        self.set_active(TabView { opened_file: Some(path), ..self.active() })
    }

    /// What the open dialog's answer leads to: nothing where it was dismissed,
    /// else the reading of the chosen file.
    pub open spec fn open_file(picked: Option<Seq<char>>) -> ActionView {
        match picked {
            Some(path) => ActionView::Read { path },
            None => ActionView::Nothing,
        }
    }

    /// The session once the file at `path` was read: with its text in a new
    /// active tab, or unchanged where the reading failed.
    pub open spec fn file_read(self, path: Seq<char>, read: Result<Seq<char>, Seq<char>>) -> AppView {
        match read {
            Ok(text) => self.push_tab(TabView::of_file(path, text)),
            Err(_) => self,
        }
    }

    /// What saving the active document asks for: the writing of its text to
    /// its path; a path to be chosen where it has none; nothing where no tab is
    /// open.
    pub open spec fn save_active(self) -> ActionView {
        if self.tabs.len() == 0 {
            ActionView::Nothing
        } else {
            match self.active().opened_file {
                Some(path) => ActionView::Write { path, text: self.active().content },
                None => ActionView::pick_text_file(),
            }
        }
    }

    /// What saving under a new path starts with: a path to be chosen, and
    /// nothing where no tab is open.
    pub open spec fn pick_save(self) -> ActionView {
        if self.tabs.len() == 0 {
            ActionView::Nothing
        } else {
            ActionView::pick_text_file()
        }
    }

    /// What the save dialog's answer leads to: nothing where it was dismissed
    /// or no tab is open, else the writing of the active document's text to
    /// the chosen path.
    pub open spec fn save_file_as(self, picked: Option<Seq<char>>) -> ActionView {
        match picked {
            Some(path) if self.tabs.len() > 0 => ActionView::Write {
                path,
                text: self.active().content,
            },
            _ => ActionView::Nothing,
        }
    }

    /// The session once a write to `path` ended: with the active document
    /// backed by `path`, or unchanged where the writing failed.
    pub open spec fn file_written(self, path: Seq<char>, written: Result<(), Seq<char>>) -> AppView {
        match written {
            Ok(_) => self.set_path(path),
            Err(_) => self,
        }
    }

    /// The failure to tell the user of once the file at `path` was read.
    pub open spec fn read_failure(path: Seq<char>, read: Result<Seq<char>, Seq<char>>) -> Option<
        IoErrorView,
    > {
        match read {
            Ok(_) => None,
            Err(message) => Some(IoErrorView::Read { path, message }),
        }
    }

    /// The failure to tell the user of once a write to `path` ended.
    pub open spec fn write_failure(path: Seq<char>, written: Result<(), Seq<char>>) -> Option<
        IoErrorView,
    > {
        match written {
            Ok(_) => None,
            Err(message) => Some(IoErrorView::Write { path, message }),
        }
    }

    /// The action that tells the user of `failure`, and none where there is
    /// nothing to tell.
    pub open spec fn report(failure: Option<IoErrorView>) -> ActionView {
        match failure {
            Some(error) => ActionView::Report(error),
            None => ActionView::Nothing,
        }
    }

    /// The window's title: the program's name, followed by the active
    /// document's path where it has one.
    pub open spec fn title(self) -> Seq<char> {
        if self.tabs.len() > 0 && self.active().opened_file is Some {
            "Notepad - "@ + self.active().opened_file->Some_0
        } else {
            "Notepad"@
        }
    }

    /// What the tab at `index` is labelled with: the name of its file, or a
    /// fixed word while it has none.
    pub open spec fn tab_label(self, index: int) -> Seq<char>
        recommends
            0 <= index < self.tabs.len(),
    {
        match self.tabs[index].opened_file {
            Some(path) => file_name(path),
            None => "Untitled"@,
        }
    }

    /// Whether `event` may reach the session: an index that it carries names
    /// one of the tabs.
    pub open spec fn admits(self, event: EventView) -> bool {
        match event {
            EventView::CloseTab(index) => 0 <= index < self.tabs.len(),
            EventView::ActivateTab(index) => 0 <= index < self.tabs.len(),
            _ => true,
        }
    }

    /// The session after `event`, and the action that answers it.
    pub open spec fn handle(self, event: EventView) -> (AppView, ActionView)
        recommends
            self.admits(event),
    {
        match event {
            EventView::NewTab => (self.new_tab(), ActionView::Nothing),
            EventView::CloseTab(index) => (self.remove_tab(index), ActionView::Nothing),
            EventView::ActivateTab(index) => (self.activate_tab(index), ActionView::Nothing),
            EventView::ToggleTheme => (self.toggle_theme(), ActionView::Nothing),
            EventView::Open => (self, ActionView::PickOpen),
            EventView::Save => (self, self.save_active()),
            EventView::SaveAs => (self, self.pick_save()),
            EventView::OpenPicked(picked) => (self, AppView::open_file(picked)),
            EventView::SavePicked(picked) => (self, self.save_file_as(picked)),
            EventView::ReadDone { path, read } => (
                self.file_read(path, read),
                AppView::report(AppView::read_failure(path, read)),
            ),
            EventView::WriteDone { path, written } => (
                self.file_written(path, written),
                AppView::report(AppView::write_failure(path, written)),
            ),
        }
    }

    /// The session after the events of `events`, taken in their order.
    pub open spec fn run(self, events: Seq<EventView>) -> AppView
        decreases events.len(),
    {
        if events.len() == 0 {
            self
        } else {
            self.run(events.drop_last()).handle(events.last()).0
        }
    }

    /// Whether each event of `events` may reach the session that the events
    /// before it have made.
    pub open spec fn admits_all(self, events: Seq<EventView>) -> bool
        decreases events.len(),
    {
        events.len() == 0 || (self.admits_all(events.drop_last()) && self.run(
            events.drop_last(),
        ).admits(events.last()))
    }
}

/// The editor session. Its tabs are kept in the order in which they were
/// opened; while one is open, one of them is active.
pub struct MyApp {
    is_dark_mode: bool,
    tabs: Vec<Tab>,
    current_tab: usize,
}

impl View for MyApp {
    type V = AppView;

    closed spec fn view(&self) -> AppView {
        AppView {
            tabs: Seq::new(self.tabs@.len(), |i: int| self.tabs@[i]@),
            current_tab: self.current_tab as int,
            is_dark_mode: self.is_dark_mode,
        }
    }
}

impl Default for MyApp {
    /// The session at startup.
    fn default() -> (app: MyApp)
        ensures
            app@ == AppView::initial(),
    {
        let mut tabs: Vec<Tab> = Vec::new();
        tabs.push(Tab::new());
        let app = MyApp { is_dark_mode: true, tabs, current_tab: 0 };
        assert(app@.tabs =~= AppView::initial().tabs);
        app
    }
}

impl MyApp {
    #[verifier::type_invariant]
    spec fn inv(self) -> bool {
        self@.wf()
    }

    /// Adds `tab` behind the others and makes it active.
    fn push_tab(&mut self, tab: Tab)
        ensures
            final(self)@ == old(self)@.push_tab(tab@),
    {
        // The list leaves the session while it grows: should the growing
        // fail, an empty list is left behind, which names no active tab.
        let mut tabs: Vec<Tab> = Vec::new();
        std::mem::swap(&mut self.tabs, &mut tabs);
        tabs.push(tab);
        self.current_tab = tabs.len() - 1;
        std::mem::swap(&mut self.tabs, &mut tabs);
        assert(self@.tabs =~= old(self)@.push_tab(tab@).tabs);
    }

    /// Opens a fresh untitled tab behind the others and makes it active.
    pub fn new_tab(&mut self)
        ensures
            final(self)@ == old(self)@.new_tab(),
            final(self)@.wf(),
    {
        self.push_tab(Tab::new());
        proof {
            use_type_invariant(&*self);
        }
    }

    /// Closes the tab at `index`. The tabs behind it move up by one, and the
    /// active index follows: it goes down by one where the closed tab stood
    /// before the active one, or was the active one and not the first.
    pub fn remove_tab(&mut self, index: usize)
        requires
            index < old(self)@.tabs.len(),
        ensures
            final(self)@ == old(self)@.remove_tab(index as int),
            final(self)@.wf(),
    {
        proof {
            use_type_invariant(&*self);
        }
        let mut tabs: Vec<Tab> = Vec::new();
        std::mem::swap(&mut self.tabs, &mut tabs);
        tabs.remove(index);
        if self.current_tab == index && index != 0 {
            self.current_tab -= 1;
        } else if self.current_tab > index {
            self.current_tab -= 1;
        }
        std::mem::swap(&mut self.tabs, &mut tabs);
        assert(self@.tabs =~= old(self)@.remove_tab(index as int).tabs);
    }

    /// Makes the tab at `index` the active one.
    pub fn activate_tab(&mut self, index: usize)
        requires
            index < old(self)@.tabs.len(),
        ensures
            final(self)@ == old(self)@.activate_tab(index as int),
            final(self)@.wf(),
    {
        self.current_tab = index;
    }

    /// Switches between the dark and the light palette.
    pub fn toggle_theme(&mut self)
        ensures
            final(self)@ == old(self)@.toggle_theme(),
            final(self)@.wf(),
    {
        proof {
            use_type_invariant(&*self);
        }
        self.is_dark_mode = !self.is_dark_mode;
    }

    /// Replaces the text of the active document by `text`. With no tab open
    /// there is nothing to replace.
    pub fn set_content(&mut self, text: String)
        ensures
            final(self)@ == old(self)@.set_content(text@),
            final(self)@.wf(),
    {
        proof {
            use_type_invariant(&*self);
        }
        if self.tabs.len() > 0 {
            let active: usize = self.current_tab;
            self.tabs[active].content = text;
            assert(self@.tabs =~= old(self)@.set_content(text@).tabs);
        }
    }

    /// Takes the answer of the open dialog: `None` where the user dismissed
    /// it. A chosen file is to be read; the session itself is untouched until
    /// its text arrives.
    pub fn open_file(&self, picked: Option<String>) -> (action: Action)
        ensures
            action@ == AppView::open_file(option_view(picked)),
    {
        match picked {
            Some(path) => Action::Read { path },
            None => Action::Nothing,
        }
    }

    /// Takes what reading the file at `path` gave. Its text goes into a new
    /// tab behind the others, which becomes active; no tab that was open
    /// changes. Where the reading failed, the session stays as it was and the
    /// failure is handed back, with the reason given in `read`.
    pub fn file_read(&mut self, path: String, read: Result<String, String>) -> (outcome: Result<
        (),
        IoError,
    >)
        ensures
            final(self)@ == old(self)@.file_read(path@, read_view(read)),
            final(self)@.wf(),
            match outcome {
                Ok(_) => AppView::read_failure(path@, read_view(read)) is None,
                Err(error) => AppView::read_failure(path@, read_view(read)) == Some(error@),
            },
    {
        proof {
            use_type_invariant(&*self);
        }
        match read {
            Ok(text) => {
                self.push_tab(Tab::from_file(path, text));
                proof {
                    use_type_invariant(&*self);
                }
                Ok(())
            },
            Err(message) => Err(IoError::Read { path, message }),
        }
    }

    /// Says what saving the active document takes: the writing of its text to
    /// the file it is backed by, or, while it is backed by none, a path chosen
    /// by the user among the plain-text files. With no tab open it takes
    /// nothing. The session itself does not change.
    pub fn save_active(&self) -> (action: Action)
        ensures
            action@ == self@.save_active(),
            self@.wf(),
    {
        proof {
            use_type_invariant(self);
        }
        if self.tabs.len() == 0 {
            Action::Nothing
        } else {
            let tab = &self.tabs[self.current_tab];
            match &tab.opened_file {
                Some(path) => Action::Write { path: path.clone(), text: tab.content.clone() },
                None => Action::pick_text_file(),
            }
        }
    }

    /// Takes the answer of the save dialog: `None` where the user dismissed
    /// it. The active document's text is to be written to a chosen path; the
    /// document takes that path as its own only once the write has ended
    /// well. Where the dialog was dismissed, or no tab is open, nothing is
    /// written.
    pub fn save_file_as(&self, picked: Option<String>) -> (action: Action)
        ensures
            action@ == self@.save_file_as(option_view(picked)),
            self@.wf(),
    {
        proof {
            use_type_invariant(self);
        }
        match picked {
            Some(path) => {
                if self.tabs.len() > 0 {
                    Action::Write { path, text: self.tabs[self.current_tab].content.clone() }
                } else {
                    Action::Nothing
                }
            },
            None => Action::Nothing,
        }
    }

    /// Takes what writing the active document's text to `path` gave. After a
    /// write that ended well the document is backed by `path`; its text and
    /// the other tabs are as before. Where the writing failed, the session
    /// stays as it was and the failure is handed back, with the reason given
    /// in `written`.
    pub fn file_written(&mut self, path: String, written: Result<(), String>) -> (outcome: Result<
        (),
        IoError,
    >)
        ensures
            final(self)@ == old(self)@.file_written(path@, write_view(written)),
            final(self)@.wf(),
            match outcome {
                Ok(_) => AppView::write_failure(path@, write_view(written)) is None,
                Err(error) => AppView::write_failure(path@, write_view(written)) == Some(error@),
            },
    {
        proof {
            use_type_invariant(&*self);
        }
        match written {
            Ok(_) => {
                if self.tabs.len() > 0 {
                    let active: usize = self.current_tab;
                    self.tabs[active].opened_file = Some(path);
                    assert(self@.tabs =~= old(self)@.set_path(path@).tabs);
                }
                Ok(())
            },
            Err(message) => Err(IoError::Write { path, message }),
        }
    }

    /// Takes one event, changes the session as the event asks, and says what
    /// is to be done next. An index that the event carries must name a tab.
    pub fn handle(&mut self, event: Event) -> (action: Action)
        requires
            old(self)@.admits(event@),
        ensures
            (final(self)@, action@) == old(self)@.handle(event@),
            final(self)@.wf(),
    {
        proof {
            use_type_invariant(&*self);
        }
        match event {
            Event::NewTab => {
                self.new_tab();
                Action::Nothing
            },
            Event::CloseTab(index) => {
                self.remove_tab(index);
                Action::Nothing
            },
            Event::ActivateTab(index) => {
                self.activate_tab(index);
                Action::Nothing
            },
            Event::ToggleTheme => {
                self.toggle_theme();
                Action::Nothing
            },
            Event::Open => Action::PickOpen,
            Event::Save => self.save_active(),
            Event::SaveAs => {
                if self.tabs.len() > 0 {
                    Action::pick_text_file()
                } else {
                    Action::Nothing
                }
            },
            Event::OpenPicked(picked) => self.open_file(picked),
            Event::SavePicked(picked) => self.save_file_as(picked),
            Event::ReadDone { path, read } => match self.file_read(path, read) {
                Ok(_) => Action::Nothing,
                Err(error) => Action::Report(error),
            },
            Event::WriteDone { path, written } => match self.file_written(path, written) {
                Ok(_) => Action::Nothing,
                Err(error) => Action::Report(error),
            },
        }
    }

    /// The window's title: `Notepad`, followed by a dash and the active
    /// document's path where it has one.
    pub fn title(&self) -> (title: String)
        ensures
            title@ == self@.title(),
    {
        proof {
            use_type_invariant(self);
        }
        if self.tabs.len() > 0 {
            match &self.tabs[self.current_tab].opened_file {
                Some(path) => {
                    return String::from_str("Notepad - ").concat(path.as_str());
                },
                None => {},
            }
        }
        String::from_str("Notepad")
    }

    /// What the tab at `index` is labelled with: the name of its file, or
    /// `Untitled` while it has none.
    pub fn tab_label(&self, index: usize) -> (label: String)
        requires
            index < self@.tabs.len(),
        ensures
            label@ == self@.tab_label(index as int),
    {
        match &self.tabs[index].opened_file {
            Some(path) => file_from_path(path.clone()),
            None => String::from_str("Untitled"),
        }
    }

    /// The number of open tabs.
    pub fn tab_count(&self) -> (count: usize)
        ensures
            count == self@.tabs.len(),
    {
        self.tabs.len()
    }

    /// The index of the active tab. While a tab is open it names one.
    pub fn current_tab(&self) -> (index: usize)
        ensures
            index == self@.current_tab,
            self@.wf(),
    {
        proof {
            use_type_invariant(self);
        }
        self.current_tab
    }

    /// Whether the dark palette is chosen.
    pub fn is_dark_mode(&self) -> (dark: bool)
        ensures
            dark == self@.is_dark_mode,
    {
        self.is_dark_mode
    }

    /// The tab at `index`.
    pub fn tab(&self, index: usize) -> (tab: &Tab)
        requires
            index < self@.tabs.len(),
        ensures
            tab@ == self@.tabs[index as int],
    {
        &self.tabs[index]
    }

    /// The active document, or `None` while no tab is open.
    pub fn active_tab(&self) -> (tab: Option<&Tab>)
        ensures
            self@.tabs.len() == 0 <==> tab is None,
            tab matches Some(tab) ==> tab@ == self@.active(),
    {
        proof {
            use_type_invariant(self);
        }
        if self.tabs.len() > 0 {
            Some(&self.tabs[self.current_tab])
        } else {
            None
        }
    }
}

} // verus!
