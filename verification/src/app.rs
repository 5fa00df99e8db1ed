//! The application's state: the tab sequence together with the session registry.
//!
//! Tabs and sessions are kept apart: a tab is a record of an opened persona,
//! a session a process. Opening a conversation touches both, closing a tab
//! destroys the session of the tab's persona, and shutting down destroys every
//! session.

use vstd::prelude::*;
use vstd::string::*;
use crate::persona::{Persona, PersonaView};
use crate::pty::{agent_argv, command_argv, command_cwd, grid};
use crate::registry::{RegistryModel, Session, SessionRegistry, SpawnRequest};
use crate::session::{SpawnError, ViewContent, ViewContentView};
use crate::state::{
    law_open_leaves_one_tab, law_open_twice_is_select, AppState, NavigationView, TabSequence,
};

verus! {

/// The application's state in contracts.
pub struct AppModel {
    pub tabs: TabSequence,
    pub sessions: RegistryModel,
}

impl AppModel {
    /// What holds of every application state.
    pub open spec fn wf(self) -> bool {
        self.tabs.wf() && self.tabs.distinct() && self.sessions.wf()
    }

    /// Opening a conversation: the persona's tab is opened or activated, and
    /// the persona gets a fresh session unless it has one.
    pub open spec fn open(self, persona: PersonaView) -> AppModel {
        AppModel {
            tabs: self.tabs.open(persona.id, persona.name),
            sessions: self.sessions.ensure(persona, false),
        }
    }

    /// Closing the tab at `index`: the session of its persona is destroyed
    /// and the tab leaves the sequence. Nothing where there is no such tab.
    pub open spec fn close(self, index: int) -> AppModel {
        if 0 <= index < self.tabs.tabs.len() {
            AppModel {
                tabs: self.tabs.close(index),
                sessions: self.sessions.destroy(self.tabs.tabs[index].persona_id),
            }
        } else {
            self
        }
    }

    /// Shutting down: every session is destroyed.
    pub open spec fn shutdown(self) -> AppModel {
        AppModel { sessions: self.sessions.destroy_all(), ..self }
    }

    /// Selecting a persona: its tab is opened or activated. Sessions stay
    /// as they are, so that the caller can offer the choice between a new
    /// and a continued session.
    pub open spec fn select(self, persona: PersonaView) -> AppModel {
        AppModel { tabs: self.tabs.open(persona.id, persona.name), ..self }
    }

    /// Starting a session for a persona: nothing where it has one.
    pub open spec fn start_session(self, persona: PersonaView) -> AppModel {
        AppModel { sessions: self.sessions.ensure(persona, false), ..self }
    }

    /// What the conversation area shows: the session of the active tab's
    /// persona; the choice between a new and a continued session where that
    /// persona has none; a prompt to select a persona where no tab is active.
    pub open spec fn active_content(self) -> ActiveContentView {
        match self.tabs.active {
            Some(i) => if 0 <= i < self.tabs.tabs.len() {
                let tab = self.tabs.tabs[i];
                match self.sessions.content(tab.persona_id) {
                    Some(c) => ActiveContentView::Conversation(c),
                    None => ActiveContentView::SessionButtons {
                        label: "Start session with "@ + tab.persona_name,
                    },
                }
            } else {
                ActiveContentView::Empty
            },
            None => ActiveContentView::Empty,
        }
    }

    /// Drawing the conversation area: the focus request of the active
    /// persona's session is used up.
    pub open spec fn rendered(self) -> AppModel {
        match self.active_persona() {
            Some(id) => AppModel { sessions: self.sessions.rendered(id), ..self },
            None => self,
        }
    }

    /// The persona of the active tab.
    pub open spec fn active_persona(self) -> Option<Seq<char>> {
        match self.tabs.active {
            Some(i) => if 0 <= i < self.tabs.tabs.len() {
                Some(self.tabs.tabs[i].persona_id)
            } else {
                None
            },
            None => None,
        }
    }
}

/// What the conversation area shows.
#[derive(Debug)]
pub enum ActiveContent {
    /// The session of the active tab's persona.
    Conversation(ViewContent),
    /// The choice between a new and a continued session, under `label`: the
    /// active tab's persona has no session.
    SessionButtons { label: String },
    /// A prompt to select a persona: no tab is active.
    Empty,
}

/// What the conversation area shows, in contracts.
pub enum ActiveContentView {
    Conversation(ViewContentView),
    SessionButtons { label: Seq<char> },
    Empty,
}

impl View for ActiveContent {
    type V = ActiveContentView;

    open spec fn view(&self) -> ActiveContentView {
        match self {
            ActiveContent::Conversation(c) => ActiveContentView::Conversation(c@),
            ActiveContent::SessionButtons { label } => ActiveContentView::SessionButtons {
                label: label@,
            },
            ActiveContent::Empty => ActiveContentView::Empty,
        }
    }
}

/// The application's state.
#[derive(Debug)]
pub struct App {
    state: AppState,
    conversations: SessionRegistry,
    working_dir: String,
}

impl View for App {
    type V = AppModel;

    closed spec fn view(&self) -> AppModel {
        AppModel { tabs: self.state@, sessions: self.conversations@ }
    }
}

impl App {
    /// The application's validity: what `new` establishes and every method
    /// keeps. It implies `AppModel::wf` of the view.
    pub closed spec fn wf(&self) -> bool {
        self.state@.wf() && self.state@.distinct() && self.conversations.wf()
    }

    /// The directory in which agent processes are started.
    pub closed spec fn working_dir(&self) -> Seq<char> {
        self.working_dir@
    }

    /// The top-level view the window shows.
    pub closed spec fn current_view(&self) -> NavigationView {
        self.state.current_view
    }

    /// Of a valid application's view, `AppModel::wf` holds.
    pub proof fn lemma_view_wf(&self)
        requires
            self.wf(),
        ensures
            self@.wf(),
    {
        self.conversations.lemma_view_wf();
    }

    /// An application that knows `personas`, has no tab and no session, and
    /// starts agent processes in `working_dir`.
    pub fn new(personas: Vec<Persona>, working_dir: String) -> (a: Self)
        ensures
            a.wf(),
            a@.tabs.tabs.len() == 0,
            a@.tabs.active is None,
            a@.sessions == RegistryModel::empty(),
            a.working_dir() == working_dir@,
            a.current_view() == NavigationView::Personas,
    {
        App { state: AppState::new(personas), conversations: SessionRegistry::new(), working_dir }
    }

    /// The navigation state, to draw the tab bar from.
    pub fn state(&self) -> (s: &AppState)
        ensures
            s@ == self@.tabs,
            s.current_view == self.current_view(),
    {
        &self.state
    }

    /// The session registry, to draw sessions from.
    pub fn conversations(&self) -> (r: &SessionRegistry)
        ensures
            r@ == self@.sessions,
            self.wf() ==> r.wf(),
    {
        &self.conversations
    }

    /// Shows another top-level view. Tabs and sessions stay as they are.
    pub fn set_view(&mut self, view: NavigationView)
        ensures
            final(self)@ == old(self)@,
            final(self).current_view() == view,
            final(self).working_dir() == old(self).working_dir(),
            old(self).wf() ==> final(self).wf(),
    {
        self.state.current_view = view;
    }

    /// Opens a conversation with `persona`: its tab is opened or activated,
    /// and unless it has a session a starting one is stored and the result
    /// tells the caller what to spawn (a fresh agent, without continuation).
    pub fn open_conversation(&mut self, persona: &Persona) -> (r: Option<SpawnRequest>)
        requires
            old(self).wf(),
        ensures
            final(self).wf(),
            final(self)@ == old(self)@.open(persona@),
            final(self).working_dir() == old(self).working_dir(),
            final(self).current_view() == old(self).current_view(),
            match r {
                Some(request) => {
                    &&& old(self)@.sessions.spawns(persona.id@)
                    &&& request.handle == old(self)@.sessions.next_handle
                    &&& request.size == grid(80, 24)
                    &&& command_argv(request.command) == agent_argv(persona.id@, false)
                    &&& command_cwd(request.command) == Some(old(self).working_dir())
                },
                None => !old(self)@.sessions.spawns(persona.id@),
            },
    {
        self.state.open_conversation(persona);
        self.conversations.ensure_or_get(persona, false, self.working_dir.as_str(), false)
    }

    /// Selects `persona`: its tab is opened or activated, and sessions stay
    /// as they are.
    pub fn select_persona(&mut self, persona: &Persona)
        requires
            old(self).wf(),
        ensures
            final(self).wf(),
            final(self)@ == old(self)@.select(persona@),
            final(self).working_dir() == old(self).working_dir(),
            final(self).current_view() == old(self).current_view(),
    {
        self.state.open_conversation(persona);
    }

    /// Starts a session for `persona`, new or continued. Where the persona
    /// has a session nothing changes and nothing is to be spawned; otherwise
    /// the result tells the caller what to spawn.
    pub fn start_session(&mut self, persona: &Persona, continue_session: bool) -> (r: Option<
        SpawnRequest,
    >)
        requires
            old(self).wf(),
        ensures
            final(self).wf(),
            final(self)@ == old(self)@.start_session(persona@),
            final(self).working_dir() == old(self).working_dir(),
            final(self).current_view() == old(self).current_view(),
            match r {
                Some(request) => {
                    &&& old(self)@.sessions.spawns(persona.id@)
                    &&& request.handle == old(self)@.sessions.next_handle
                    &&& request.size == grid(80, 24)
                    &&& command_argv(request.command) == agent_argv(persona.id@, continue_session)
                    &&& command_cwd(request.command) == Some(old(self).working_dir())
                },
                None => !old(self)@.sessions.spawns(persona.id@),
            },
    {
        self.conversations.ensure_or_get(persona, continue_session, self.working_dir.as_str(), false)
    }

    /// Takes the spawn procedure's report for `handle` (see
    /// `SessionRegistry::spawn_finished`).
    pub fn spawn_finished(&mut self, handle: u64, outcome: Result<(), SpawnError>) -> (taken: bool)
        requires
            old(self).wf(),
        ensures
            final(self).wf(),
            taken == old(self)@.sessions.awaited(handle),
            final(self)@ == (AppModel {
                sessions: old(self)@.sessions.spawn_finished(handle, outcome),
                ..old(self)@
            }),
            final(self).working_dir() == old(self).working_dir(),
            final(self).current_view() == old(self).current_view(),
    {
        self.conversations.spawn_finished(handle, outcome)
    }

    /// Activates the tab at `index`; a stale index changes nothing.
    pub fn select_tab(&mut self, index: usize)
        requires
            old(self).wf(),
        ensures
            final(self).wf(),
            final(self)@ == (AppModel { tabs: old(self)@.tabs.select(index as int), ..old(self)@ }),
            final(self).working_dir() == old(self).working_dir(),
            final(self).current_view() == old(self).current_view(),
    {
        self.state.set_active_tab(index);
    }

    /// Closes the tab at `index` and destroys the session of its persona,
    /// which is handed back for the caller to release. A stale index changes
    /// nothing.
    pub fn close_conversation(&mut self, index: usize) -> (r: Option<Session>)
        requires
            old(self).wf(),
        ensures
            final(self).wf(),
            final(self)@ == old(self)@.close(index as int),
            final(self).working_dir() == old(self).working_dir(),
            final(self).current_view() == old(self).current_view(),
            match r {
                Some(s) => {
                    &&& index < old(self)@.tabs.tabs.len()
                    &&& old(self)@.sessions.contains(old(self)@.tabs.tabs[index as int].persona_id)
                    &&& s@ == old(self)@.sessions.sessions[old(
                        self,
                    )@.tabs.tabs[index as int].persona_id]
                },
                None => index < old(self)@.tabs.tabs.len() ==> !old(self)@.sessions.contains(
                    old(self)@.tabs.tabs[index as int].persona_id,
                ),
            },
    {
        if index >= self.state.open_tabs.len() {
            return None;
        }
        let removed = self.conversations.destroy(self.state.open_tabs[index].persona_id.as_str());
        self.state.close_tab(index);
        removed
    }

    /// Destroys every session and hands them back, each to be released by
    /// the caller before the process exits. The tabs stay as they are.
    pub fn shutdown(&mut self) -> (r: Vec<Session>)
        requires
            old(self).wf(),
        ensures
            final(self).wf(),
            final(self)@ == old(self)@.shutdown(),
            final(self)@.sessions.active_ids() == Set::<Seq<char>>::empty(),
            r@.len() == old(self)@.sessions.sessions.dom().len(),
            forall|id: Seq<char>|
                old(self)@.sessions.contains(id) ==> exists|i: int|
                    0 <= i < r@.len() && (#[trigger] r@[i])@ == old(self)@.sessions.sessions[id],
    {
        self.conversations.destroy_all()
    }

    /// What the conversation area shows: the session of the active tab's
    /// persona, drawn as `ConversationView::render` draws it, or the empty
    /// prompt.
    pub fn render_active_conversation(&mut self) -> (r: ActiveContent)
        requires
            old(self).wf(),
        ensures
            final(self).wf(),
            final(self)@ == old(self)@.rendered(),
            final(self).working_dir() == old(self).working_dir(),
            final(self).current_view() == old(self).current_view(),
            r@ == old(self)@.active_content(),
    {
        match self.state.active_tab_index {
            Some(index) => {
                if index < self.state.open_tabs.len() {
                    match self.conversations.render(self.state.open_tabs[index].persona_id.as_str()) {
                        Some(c) => ActiveContent::Conversation(c),
                        None => {
                            let mut label = String::from_str("Start session with ");
                            label.append(self.state.open_tabs[index].persona_name.as_str());
                            ActiveContent::SessionButtons { label }
                        },
                    }
                } else {
                    ActiveContent::Empty
                }
            },
            None => ActiveContent::Empty,
        }
    }
}

/// Opening a conversation with a persona twice in a row leaves exactly one
/// tab and one session for it, and the second call does what selecting the
/// persona's tab does: nothing else changes.
pub proof fn law_open_twice(m: AppModel, persona: PersonaView)
    requires
        m.tabs.distinct(),
    ensures
        ({
            let once = m.open(persona);
            let twice = once.open(persona);
            &&& twice == once
            &&& once.sessions.contains(persona.id)
            &&& (once.tabs.position(persona.id) matches Some(i) && twice.tabs == once.tabs.select(i)
                && forall|j: int|
                0 <= j < twice.tabs.tabs.len() && twice.tabs.tabs[j].persona_id == persona.id ==> j
                    == i)
            &&& twice.tabs.distinct()
        }),
{
    law_open_twice_is_select(m.tabs, persona.id, persona.name, persona.name);
    law_open_leaves_one_tab(m.tabs, persona.id, persona.name);
}

/// Opening a conversation is selecting the persona and starting a fresh
/// session for it, in either order.
pub proof fn law_open_is_select_and_start(m: AppModel, persona: PersonaView)
    ensures
        m.open(persona) == m.select(persona).start_session(persona),
        m.open(persona) == m.start_session(persona).select(persona),
{
}

/// Closing a tab leaves no session for the tab's persona.
pub proof fn law_close_destroys_session(m: AppModel, index: int)
    requires
        0 <= index < m.tabs.tabs.len(),
    ensures
        !m.close(index).sessions.contains(m.tabs.tabs[index].persona_id),
        m.close(index).tabs.tabs == m.tabs.tabs.remove(index),
{
}

} // verus!
