//! What holds of the session whatever happens to it, proved of its model.

use vstd::prelude::*;
use crate::app::AppView;
use crate::event::ActionView;
use crate::event::EventView;
use crate::tab::TabView;

verus! {

/// The session at startup is well formed: its one tab is the active one.
pub proof fn lemma_initial_wf()
    ensures
        AppView::initial().wf(),
        AppView::initial().tabs.len() == 1,
        AppView::initial().active() == TabView::untitled(),
{
}

/// No event makes a well-formed session ill formed: while a tab is open, the
/// active index names one.
pub proof fn lemma_handle_wf(session: AppView, event: EventView)
    requires
        session.wf(),
        session.admits(event),
    ensures
        session.handle(event).0.wf(),
{
}

/// No sequence of events makes a well-formed session ill formed.
pub proof fn lemma_run_wf(session: AppView, events: Seq<EventView>)
    requires
        session.wf(),
        session.admits_all(events),
    ensures
        session.run(events).wf(),
    decreases events.len(),
{
    if events.len() > 0 {
        lemma_run_wf(session, events.drop_last());
        lemma_handle_wf(session.run(events.drop_last()), events.last());
    }
}

/// However tabs are opened and closed after startup, the active index stays
/// below the number of tabs while there is one.
pub proof fn lemma_active_index_in_range(events: Seq<EventView>)
    requires
        forall|i: int|
            0 <= i < events.len() ==> events[i] is NewTab || events[i] is CloseTab,
        AppView::initial().admits_all(events),
    ensures
        AppView::initial().run(events).tabs.len() > 0 ==> 0 <= AppView::initial().run(
            events,
        ).current_tab < AppView::initial().run(events).tabs.len(),
{
    lemma_run_wf(AppView::initial(), events);
}

/// Closing the active tab makes the tab before it active, one index down. Only
/// where the first tab was active the index stays 0, and names the tab that
/// stood second, if there was one.
pub proof fn lemma_close_active(session: AppView)
    requires
        session.wf(),
        session.tabs.len() > 0,
    ensures
        session.current_tab > 0 ==> {
            &&& session.remove_tab(session.current_tab).current_tab == session.current_tab - 1
            &&& session.remove_tab(session.current_tab).active() == session.tabs[
                session.current_tab - 1
            ]
        },
        session.current_tab == 0 ==> {
            &&& session.remove_tab(0).current_tab == 0
            &&& session.tabs.len() > 1 ==> session.remove_tab(0).active() == session.tabs[1]
            &&& session.tabs.len() == 1 ==> session.remove_tab(0).tabs.len() == 0
        },
{
}

/// Closing another tab than the active one leaves the same document active:
/// the index moves down with it where the closed tab stood before it.
pub proof fn lemma_close_other(session: AppView, index: int)
    requires
        session.wf(),
        0 <= index < session.tabs.len(),
        index != session.current_tab,
    ensures
        session.remove_tab(index).active() == session.active(),
        index < session.current_tab ==> session.remove_tab(index).current_tab
            == session.current_tab - 1,
        index > session.current_tab ==> session.remove_tab(index).current_tab
            == session.current_tab,
{
}

/// Closing a tab takes that tab away and no other: those before it stay where
/// they are, those behind it move up by one.
pub proof fn lemma_close_keeps_others(session: AppView, index: int)
    requires
        0 <= index < session.tabs.len(),
    ensures
        session.remove_tab(index).tabs.len() == session.tabs.len() - 1,
        forall|i: int| 0 <= i < index ==> session.remove_tab(index).tabs[i] == session.tabs[i],
        forall|i: int|
            index <= i < session.tabs.len() - 1 ==> session.remove_tab(index).tabs[i]
                == session.tabs[i + 1],
        session.remove_tab(index).is_dark_mode == session.is_dark_mode,
{
}

/// Opening a file changes no document that is open. Until the file's text has
/// arrived the session stays as it is; then the text stands in a new tab
/// behind the others, which is the active one.
pub proof fn lemma_open_keeps_tabs(
    session: AppView,
    picked: Option<Seq<char>>,
    path: Seq<char>,
    text: Seq<char>,
)
    ensures
        session.handle(EventView::Open).0 == session,
        session.handle(EventView::OpenPicked(picked)).0 == session,
        session.handle(EventView::ReadDone { path, read: Ok(text) }).0.tabs.len()
            == session.tabs.len() + 1,
        forall|i: int|
            0 <= i < session.tabs.len() ==> session.handle(
                EventView::ReadDone { path, read: Ok(text) },
            ).0.tabs[i] == session.tabs[i],
        session.handle(EventView::ReadDone { path, read: Ok(text) }).0.active()
            == TabView::of_file(path, text),
        session.handle(EventView::ReadDone { path, read: Ok(text) }).1 == ActionView::Nothing,
{
}

/// Saving a document that is backed by a file asks for exactly its text to be
/// written to exactly that file, and leaves the session as it is; so does the
/// end of that write.
pub proof fn lemma_save_keeps_path(session: AppView, path: Seq<char>)
    requires
        session.wf(),
        session.tabs.len() > 0,
        session.active().opened_file == Some(path),
    ensures
        session.handle(EventView::Save) == (
            session,
            ActionView::Write { path, text: session.active().content },
        ),
        session.handle(EventView::WriteDone { path, written: Ok(()) }) == (
            session,
            ActionView::Nothing,
        ),
{
    assert(session.set_path(path).tabs =~= session.tabs);
}

/// Saving a document that is backed by no file asks for a path. Where the user
/// then dismisses the dialog nothing is written, and the document is as
/// before: backed by no file.
pub proof fn lemma_save_cancelled(session: AppView)
    requires
        session.wf(),
        session.tabs.len() > 0,
        session.active().opened_file is None,
    ensures
        session.handle(EventView::Save) == (session, ActionView::pick_text_file()),
        session.handle(EventView::SavePicked(None)) == (session, ActionView::Nothing),
        session.handle(EventView::Save).0.handle(EventView::SavePicked(None)).0.active()
            == session.active(),
{
}

/// Saving under a path that the user chose asks for the active document's text
/// to be written there. Once that write has ended well the document is backed
/// by the chosen path; its text and every other tab are as before.
pub proof fn lemma_save_as_adopts_path(session: AppView, path: Seq<char>)
    requires
        session.wf(),
        session.tabs.len() > 0,
    ensures
        session.handle(EventView::SavePicked(Some(path))) == (
            session,
            ActionView::Write { path, text: session.active().content },
        ),
        session.handle(EventView::WriteDone { path, written: Ok(()) }).0.active() == (TabView {
            opened_file: Some(path),
            content: session.active().content,
        }),
        session.handle(EventView::WriteDone { path, written: Ok(()) }).0.current_tab
            == session.current_tab,
        session.handle(EventView::WriteDone { path, written: Ok(()) }).0.tabs.len()
            == session.tabs.len(),
        forall|i: int|
            0 <= i < session.tabs.len() && i != session.current_tab ==> session.handle(
                EventView::WriteDone { path, written: Ok(()) },
            ).0.tabs[i] == session.tabs[i],
{
}

/// What saving asks to be written to a file is the document: were that text
/// read back from the same path, the tab it opens would hold the document that
/// was saved.
pub proof fn lemma_saved_text_reopens(session: AppView, path: Seq<char>, text: Seq<char>)
    requires
        session.wf(),
        session.handle(EventView::Save).1 == (ActionView::Write { path, text }),
    ensures
        session.tabs.len() > 0,
        session.handle(EventView::ReadDone { path, read: Ok(text) }).0.active()
            == session.active(),
{
}

/// A file that cannot be read or written costs nothing but the operation: the
/// session stays as it is, and the user is told.
pub proof fn lemma_failure_keeps_session(session: AppView, path: Seq<char>, message: Seq<char>)
    ensures
        session.handle(EventView::ReadDone { path, read: Err(message) }).0 == session,
        session.handle(EventView::ReadDone { path, read: Err(message) }).1 is Report,
        session.handle(EventView::WriteDone { path, written: Err(message) }).0 == session,
        session.handle(EventView::WriteDone { path, written: Err(message) }).1 is Report,
{
}

} // verus!
