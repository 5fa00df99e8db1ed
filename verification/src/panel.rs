//! The persona panel: the selected persona, the sessions, and whether the
//! terminal is expanded over the persona list.

use vstd::prelude::*;
use vstd::string::*;
use crate::persona::{Persona, PersonaView};
use crate::pty::{agent_argv, command_argv, command_cwd, grid};
use crate::registry::{RegistryModel, Session, SessionRegistry, SpawnRequest};
use crate::session::{SpawnError, ViewContent, ViewContentView};

verus! {

/// Width of the persona list beside the conversation area, in pixels.
pub const SIDEBAR_WIDTH: u32 = 300;

/// The persona of an optional persona, in contracts.
pub open spec fn opt_persona(p: Option<Persona>) -> Option<PersonaView> {
    match p {
        Some(q) => Some(q@),
        None => None,
    }
}

/// The panel in contracts.
pub struct PanelModel {
    pub selected: Option<PersonaView>,
    pub sessions: RegistryModel,
    pub is_expanded: bool,
}

/// What the bar above a session's terminal reports when it is used.
#[derive(Debug, Clone, Copy, PartialEq, Eq, Structural)]
pub enum TerminalHeaderBarEvent {
    /// The toggle was pressed.
    ToggleExpanded,
    /// The session is to be closed.
    CloseSession,
}

/// What the conversation area of the panel shows, in contracts.
pub enum PanelContentView {
    Empty,
    SessionButtons { label: Seq<char> },
    Session { title: Seq<char>, is_expanded: bool, content: ViewContentView },
}

impl PanelModel {
    /// Selecting a persona: the panel takes over whether the terminal of
    /// the persona's session is expanded, and collapses where it has none.
    pub open spec fn select(self, persona: PersonaView) -> PanelModel {
        PanelModel {
            selected: Some(persona),
            is_expanded: if self.sessions.contains(persona.id) {
                self.sessions.sessions[persona.id].header.is_expanded
            } else {
                false
            },
            ..self
        }
    }

    /// Starting a session for a persona: nothing where it has one.
    pub open spec fn start_session(self, persona: PersonaView) -> PanelModel {
        PanelModel { sessions: self.sessions.ensure(persona, self.is_expanded), ..self }
    }

    /// The toggle on the bar of persona `id`'s session was pressed.
    pub open spec fn toggle_expanded(self, id: Seq<char>) -> PanelModel {
        PanelModel {
            is_expanded: !self.is_expanded,
            sessions: self.sessions.with_expanded(id, !self.is_expanded),
            ..self
        }
    }

    /// Starting a fresh session in the place of the one a persona has.
    pub open spec fn restart_session(self, persona: PersonaView) -> PanelModel {
        PanelModel {
            sessions: self.sessions.destroy(persona.id).ensure(persona, self.is_expanded),
            ..self
        }
    }

    /// Taking an event of the bar of persona `id`'s session.
    pub open spec fn on_header_event(self, id: Seq<char>, event: TerminalHeaderBarEvent) -> PanelModel {
        match event {
            TerminalHeaderBarEvent::ToggleExpanded => self.toggle_expanded(id),
            TerminalHeaderBarEvent::CloseSession => self.close_session(id),
        }
    }

    /// Closing the session of persona `id`: the list comes back.
    pub open spec fn close_session(self, id: Seq<char>) -> PanelModel {
        PanelModel { sessions: self.sessions.destroy(id), is_expanded: false, ..self }
    }

    /// What the conversation area shows: a prompt while no persona is
    /// selected, the choice between a new and a continued session while the
    /// selected persona has none, and its session otherwise.
    pub open spec fn content(self) -> PanelContentView {
        match self.selected {
            None => PanelContentView::Empty,
            Some(p) => if self.sessions.contains(p.id) {
                let entry = self.sessions.sessions[p.id];
                PanelContentView::Session {
                    title: entry.header.persona_name,
                    is_expanded: entry.header.is_expanded,
                    content: entry.conversation.content(),
                }
            } else {
                PanelContentView::SessionButtons { label: "Start session with "@ + p.name }
            },
        }
    }

    /// Drawing the conversation area: the focus request of the selected
    /// persona's session is used up.
    pub open spec fn rendered(self) -> PanelModel {
        match self.selected {
            None => self,
            Some(p) => PanelModel { sessions: self.sessions.rendered(p.id), ..self },
        }
    }
}

/// What the conversation area of the panel shows.
#[derive(Debug)]
pub enum PanelContent {
    /// A prompt to select a persona.
    Empty,
    /// The choice between a new and a continued session, under `label`.
    SessionButtons { label: String },
    /// The session's bar and, below it, what the session draws.
    Session { title: String, is_expanded: bool, content: ViewContent },
}

impl View for PanelContent {
    type V = PanelContentView;

    open spec fn view(&self) -> PanelContentView {
        match self {
            PanelContent::Empty => PanelContentView::Empty,
            PanelContent::SessionButtons { label } => PanelContentView::SessionButtons {
                label: label@,
            },
            PanelContent::Session { title, is_expanded, content } => PanelContentView::Session {
                title: title@,
                is_expanded: *is_expanded,
                content: content@,
            },
        }
    }
}

/// The persona panel.
#[derive(Debug)]
pub struct PersonaPanel {
    personas: Vec<Persona>,
    selected_persona: Option<Persona>,
    sessions: SessionRegistry,
    is_expanded: bool,
    working_dir: String,
}

impl View for PersonaPanel {
    type V = PanelModel;

    closed spec fn view(&self) -> PanelModel {
        PanelModel {
            selected: opt_persona(self.selected_persona),
            sessions: self.sessions@,
            is_expanded: self.is_expanded,
        }
    }
}

impl PersonaPanel {
    /// The panel's validity: what `new` establishes and every method keeps.
    pub closed spec fn wf(&self) -> bool {
        self.sessions.wf()
    }

    /// The directory in which agent processes are started.
    pub closed spec fn working_dir(&self) -> Seq<char> {
        self.working_dir@
    }

    /// The personas the panel lists.
    pub closed spec fn listed(&self) -> Seq<Persona> {
        self.personas@
    }

    /// Of a valid panel's sessions, `RegistryModel::wf` holds.
    pub proof fn lemma_view_wf(&self)
        requires
            self.wf(),
        ensures
            self@.sessions.wf(),
    {
        self.sessions.lemma_view_wf();
    }

    /// A panel that lists `personas`, with none selected, no session, and
    /// the list shown.
    pub fn new(personas: Vec<Persona>, working_dir: String) -> (p: Self)
        ensures
            p.wf(),
            p@ == (PanelModel {
                selected: None,
                sessions: RegistryModel::empty(),
                is_expanded: false,
            }),
            p.working_dir() == working_dir@,
            p.listed() == personas@,
    {
        PersonaPanel {
            personas,
            selected_persona: None,
            sessions: SessionRegistry::new(),
            is_expanded: false,
            working_dir,
        }
    }

    /// The personas the panel lists.
    pub fn personas(&self) -> (v: &Vec<Persona>)
        ensures
            v@ == self.listed(),
    {
        &self.personas
    }

    /// The sessions, to draw from.
    pub fn sessions(&self) -> (r: &SessionRegistry)
        ensures
            r@ == self@.sessions,
            self.wf() ==> r.wf(),
    {
        &self.sessions
    }

    /// Whether the terminal is expanded over the persona list.
    pub fn is_expanded(&self) -> (b: bool)
        ensures
            b == self@.is_expanded,
    {
        self.is_expanded
    }

    /// The width left to the persona list: none while the terminal is expanded.
    pub fn sidebar_width(&self) -> (w: u32)
        ensures
            w == if self@.is_expanded {
                0u32
            } else {
                SIDEBAR_WIDTH
            },
    {
        if self.is_expanded {
            0
        } else {
            SIDEBAR_WIDTH
        }
    }

    /// Selects `persona` (see `PanelModel::select`).
    pub fn select_persona(&mut self, persona: Persona)
        requires
            old(self).wf(),
        ensures
            final(self).wf(),
            final(self)@ == old(self)@.select(persona@),
            final(self).working_dir() == old(self).working_dir(),
            final(self).listed() == old(self).listed(),
    {
        let expanded = match self.sessions.get(persona.id.as_str()) {
            Some(session) => session.header.is_expanded(),
            None => false,
        };
        self.selected_persona = Some(persona);
        self.is_expanded = expanded;
    }

    /// Starts a session for `persona`, new or continued. Where the persona
    /// has a session nothing changes and nothing is to be spawned; otherwise
    /// the result tells the caller what to spawn.
    pub fn start_session(&mut self, persona: &Persona, continue_session: bool) -> (r: Option<
        SpawnRequest,
    >)
        requires
            old(self).wf(),
        ensures
            final(self).wf(),
            final(self)@ == old(self)@.start_session(persona@),
            final(self).working_dir() == old(self).working_dir(),
            final(self).listed() == old(self).listed(),
            match r {
                Some(request) => {
                    &&& old(self)@.sessions.spawns(persona.id@)
                    &&& request.handle == old(self)@.sessions.next_handle
                    &&& request.size == grid(80, 24)
                    &&& command_argv(request.command) == agent_argv(persona.id@, continue_session)
                    &&& command_cwd(request.command) == Some(old(self).working_dir())
                },
                None => !old(self)@.sessions.spawns(persona.id@),
            },
    {
        let expanded = self.is_expanded;
        self.sessions.ensure_or_get(persona, continue_session, self.working_dir.as_str(), expanded)
    }

    /// Starts a fresh session for `persona` in the place of the one it has,
    /// if any (a failed one, say): the old session is handed back for the
    /// caller to release, and the second part of the result tells the caller
    /// what to spawn.
    pub fn restart_session(&mut self, persona: &Persona, continue_session: bool) -> (r: (
        Option<Session>,
        Option<SpawnRequest>,
    ))
        requires
            old(self).wf(),
        ensures
            final(self).wf(),
            final(self)@ == old(self)@.restart_session(persona@),
            final(self).working_dir() == old(self).working_dir(),
            final(self).listed() == old(self).listed(),
            match r.0 {
                Some(s) => old(self)@.sessions.contains(persona.id@) && s@ == old(
                    self,
                )@.sessions.sessions[persona.id@],
                None => !old(self)@.sessions.contains(persona.id@),
            },
            match r.1 {
                Some(request) => {
                    &&& old(self)@.sessions.next_handle < u64::MAX
                    &&& request.handle == old(self)@.sessions.next_handle
                    &&& request.size == grid(80, 24)
                    &&& command_argv(request.command) == agent_argv(persona.id@, continue_session)
                    &&& command_cwd(request.command) == Some(old(self).working_dir())
                },
                None => old(self)@.sessions.next_handle == u64::MAX,
            },
    {
        let expanded = self.is_expanded;
        self.sessions.replace(persona, continue_session, self.working_dir.as_str(), expanded)
    }

    /// Takes the spawn procedure's report for `handle` (see
    /// `SessionRegistry::spawn_finished`).
    pub fn spawn_finished(&mut self, handle: u64, outcome: Result<(), SpawnError>) -> (taken: bool)
        requires
            old(self).wf(),
        ensures
            final(self).wf(),
            taken == old(self)@.sessions.awaited(handle),
            final(self)@ == (PanelModel {
                sessions: old(self)@.sessions.spawn_finished(handle, outcome),
                ..old(self)@
            }),
            final(self).working_dir() == old(self).working_dir(),
            final(self).listed() == old(self).listed(),
    {
        self.sessions.spawn_finished(handle, outcome)
    }

    /// The toggle on the bar of persona `id`'s session was pressed: the
    /// panel expands or collapses, and the bar records which.
    pub fn toggle_expanded(&mut self, id: &str)
        requires
            old(self).wf(),
        ensures
            final(self).wf(),
            final(self)@ == old(self)@.toggle_expanded(id@),
            final(self).working_dir() == old(self).working_dir(),
            final(self).listed() == old(self).listed(),
    {
        let expanded = !self.is_expanded;
        self.is_expanded = expanded;
        self.sessions.set_expanded(id, expanded);
    }

    /// Closes the session of persona `id` and hands it back for the caller
    /// to release; the persona list comes back.
    pub fn close_session(&mut self, id: &str) -> (r: Option<Session>)
        requires
            old(self).wf(),
        ensures
            final(self).wf(),
            final(self)@ == old(self)@.close_session(id@),
            final(self).working_dir() == old(self).working_dir(),
            final(self).listed() == old(self).listed(),
            match r {
                Some(s) => old(self)@.sessions.contains(id@) && s@ == old(self)@.sessions.sessions[id@],
                None => !old(self)@.sessions.contains(id@),
            },
    {
        let removed = self.sessions.destroy(id);
        self.is_expanded = false;
        removed
    }

    /// Takes an event of the bar of persona `id`'s session: the toggle
    /// expands or collapses the panel, closing destroys the session, which is
    /// handed back for the caller to release.
    pub fn on_header_event(&mut self, id: &str, event: TerminalHeaderBarEvent) -> (r: Option<Session>)
        requires
            old(self).wf(),
        ensures
            final(self).wf(),
            final(self)@ == old(self)@.on_header_event(id@, event),
            final(self).working_dir() == old(self).working_dir(),
            final(self).listed() == old(self).listed(),
            match r {
                Some(s) => event == TerminalHeaderBarEvent::CloseSession && old(self)@.sessions.contains(
                    id@,
                ) && s@ == old(self)@.sessions.sessions[id@],
                None => event == TerminalHeaderBarEvent::ToggleExpanded || !old(
                    self,
                )@.sessions.contains(id@),
            },
    {
        match event {
            TerminalHeaderBarEvent::ToggleExpanded => {
                self.toggle_expanded(id);
                None
            },
            TerminalHeaderBarEvent::CloseSession => self.close_session(id),
        }
    }

    /// Destroys every session and hands them back, each to be released by
    /// the caller before the process exits; the persona list comes back.
    pub fn shutdown(&mut self) -> (r: Vec<Session>)
        requires
            old(self).wf(),
        ensures
            final(self).wf(),
            final(self)@ == (PanelModel {
                sessions: old(self)@.sessions.destroy_all(),
                is_expanded: false,
                ..old(self)@
            }),
            final(self)@.sessions.active_ids() == Set::<Seq<char>>::empty(),
            final(self).working_dir() == old(self).working_dir(),
            final(self).listed() == old(self).listed(),
            r@.len() == old(self)@.sessions.sessions.dom().len(),
            forall|id: Seq<char>|
                old(self)@.sessions.contains(id) ==> exists|i: int|
                    0 <= i < r@.len() && (#[trigger] r@[i])@ == old(self)@.sessions.sessions[id],
    {
        self.is_expanded = false;
        self.sessions.destroy_all()
    }

    /// The identifiers of the personas that have a session, each once: the
    /// ones the list marks.
    pub fn active_session_ids(&self) -> (ids: Vec<String>)
        requires
            self.wf(),
        ensures
            ids@.map_values(|s: String| s@).to_set() == self@.sessions.active_ids(),
            ids@.map_values(|s: String| s@).no_duplicates(),
    {
        self.sessions.active_ids()
    }

    /// What the conversation area shows (see `PanelModel::content`), with
    /// the one-shot focus request of the session drawn.
    pub fn render_conversation_area(&mut self) -> (c: PanelContent)
        requires
            old(self).wf(),
        ensures
            final(self).wf(),
            c@ == old(self)@.content(),
            final(self)@ == old(self)@.rendered(),
            final(self).working_dir() == old(self).working_dir(),
            final(self).listed() == old(self).listed(),
    {
        match &self.selected_persona {
            None => PanelContent::Empty,
            Some(persona) => {
                let header = match self.sessions.get(persona.id.as_str()) {
                    Some(session) => Some(
                        (session.header.persona_name().clone(), session.header.is_expanded()),
                    ),
                    None => None,
                };
                match header {
                    Some((title, is_expanded)) => {
                        match self.sessions.render(persona.id.as_str()) {
                            Some(content) => PanelContent::Session { title, is_expanded, content },
                            None => PanelContent::Empty,
                        }
                    },
                    None => {
                        let mut label = String::from_str("Start session with ");
                        label.append(persona.name.as_str());
                        PanelContent::SessionButtons { label }
                    },
                }
            },
        }
    }
}

/// Closing the session of the selected persona brings back the choice
/// between a new and a continued session, and a session started then is a
/// fresh one.
pub proof fn law_close_then_start_is_fresh(m: PanelModel, persona: PersonaView)
    requires
        m.sessions.wf(),
        m.selected == Some(persona),
        m.sessions.contains(persona.id),
        m.sessions.next_handle < u64::MAX,
    ensures
        m.close_session(persona.id).content() == (PanelContentView::SessionButtons {
            label: "Start session with "@ + persona.name,
        }),
        m.close_session(persona.id).start_session(persona).sessions.sessions[persona.id].conversation
            == crate::session::SessionView::starting(persona, m.sessions.next_handle),
        m.close_session(persona.id).start_session(persona).sessions.sessions[persona.id].conversation.handle
            != m.sessions.sessions[persona.id].conversation.handle,
{
}

} // verus!
