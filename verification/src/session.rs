//! Conversation sessions: one pseudo-terminal-backed agent process per persona.
//!
//! A session is created when the user asks for one and is then in one of three
//! phases: starting (the spawn procedure was requested and has not reported),
//! running (a terminal is attached) or failed (the procedure reported an error,
//! which is kept as text and shown in place of the terminal). The process
//! itself is held by the caller under the session's handle number.

use vstd::prelude::*;
use vstd::string::*;
use portable_pty::PtySize;
use crate::persona::{Persona, PersonaView};
use crate::pty::{grid, resize_size};

verus! {

/// What went wrong in the spawn procedure, with the operating system's words.
#[derive(Debug)]
pub enum SpawnError {
    /// The pseudo-terminal pair could not be created.
    Allocation(String),
    /// The agent executable was not found or could not be started.
    Spawn(String),
    /// The writer or the reader could not be obtained from the pseudo-terminal.
    StreamDetachment(String),
}

impl SpawnError {
    /// The words of the error, whatever its kind.
    pub open spec fn text(self) -> Seq<char> {
        match self {
            SpawnError::Allocation(m) => m@,
            SpawnError::Spawn(m) => m@,
            SpawnError::StreamDetachment(m) => m@,
        }
    }

    /// The words of the error, whatever its kind.
    pub fn message(&self) -> (m: &String)
        ensures
            m@ == self.text(),
    {
        match self {
            SpawnError::Allocation(m) => m,
            SpawnError::Spawn(m) => m,
            SpawnError::StreamDetachment(m) => m,
        }
    }
}

/// The text a failed session shows for a spawn error.
pub open spec fn spawn_error_text(message: Seq<char>) -> Seq<char> {
    "Failed to spawn terminal: "@ + message
}

/// Where a session is in its life.
#[derive(Debug)]
pub enum Phase {
    Starting,
    Running,
    Failed(String),
}

/// A phase in contracts.
pub enum PhaseView {
    Starting,
    Running,
    Failed(Seq<char>),
}

impl View for Phase {
    type V = PhaseView;

    open spec fn view(&self) -> PhaseView {
        match self {
            Phase::Starting => PhaseView::Starting,
            Phase::Running => PhaseView::Running,
            Phase::Failed(m) => PhaseView::Failed(m@),
        }
    }
}

/// What the caller draws for a session.
#[derive(Debug)]
pub enum ViewContent {
    /// The error text, in place of a terminal.
    Error(String),
    /// The terminal held under `handle`; `focus` asks that it take the keyboard.
    Terminal { handle: u64, focus: bool },
    /// A notice that the terminal is being started.
    Loading,
}

/// Drawn content in contracts.
pub enum ViewContentView {
    Error(Seq<char>),
    Terminal { handle: u64, focus: bool },
    Loading,
}

impl View for ViewContent {
    type V = ViewContentView;

    open spec fn view(&self) -> ViewContentView {
        match self {
            ViewContent::Error(m) => ViewContentView::Error(m@),
            ViewContent::Terminal { handle, focus } => ViewContentView::Terminal {
                handle: *handle,
                focus: *focus,
            },
            ViewContent::Loading => ViewContentView::Loading,
        }
    }
}

/// A session in contracts.
pub struct SessionView {
    pub persona: PersonaView,
    pub handle: u64,
    pub phase: PhaseView,
    pub needs_focus: bool,
}

impl SessionView {
    /// A session as it is created: starting, and due to take the keyboard once.
    pub open spec fn starting(persona: PersonaView, handle: u64) -> SessionView {
        SessionView { persona, handle, phase: PhaseView::Starting, needs_focus: true }
    }

    /// The handle of the attached terminal, for a running session.
    pub open spec fn pty_handle(self) -> Option<u64> {
        if self.phase is Running {
            Some(self.handle)
        } else {
            None
        }
    }

    /// The error text, for a failed session.
    pub open spec fn error(self) -> Option<Seq<char>> {
        match self.phase {
            PhaseView::Failed(m) => Some(m),
            _ => None,
        }
    }

    /// The session after the spawn procedure reported: a starting session
    /// runs or fails, any other stays as it is.
    pub open spec fn spawn_finished(self, outcome: Result<(), SpawnError>) -> SessionView {
        if self.phase is Starting {
            match outcome {
                Ok(_) => SessionView { phase: PhaseView::Running, ..self },
                Err(e) => SessionView {
                    phase: PhaseView::Failed(spawn_error_text(e.text())),
                    ..self
                },
            }
        } else {
            self
        }
    }

    /// What is drawn for the session.
    pub open spec fn content(self) -> ViewContentView {
        match self.phase {
            PhaseView::Failed(m) => ViewContentView::Error(m),
            PhaseView::Running => ViewContentView::Terminal {
                handle: self.handle,
                focus: self.needs_focus,
            },
            PhaseView::Starting => ViewContentView::Loading,
        }
    }

    /// The session after it was drawn: a running session has taken the
    /// keyboard and does not ask again.
    pub open spec fn rendered(self) -> SessionView {
        if self.phase is Running {
            SessionView { needs_focus: false, ..self }
        } else {
            self
        }
    }
}

/// The session of one persona.
#[derive(Debug)]
pub struct ConversationView {
    persona: Persona,
    handle: u64,
    phase: Phase,
    needs_focus: bool,
}

impl View for ConversationView {
    type V = SessionView;

    closed spec fn view(&self) -> SessionView {
        SessionView {
            persona: self.persona@,
            handle: self.handle,
            phase: self.phase@,
            needs_focus: self.needs_focus,
        }
    }
}

impl ConversationView {
    /// A session for `persona` whose process will be held under `handle`.
    pub fn new(persona: Persona, handle: u64) -> (s: Self)
        ensures
            s@ == SessionView::starting(persona@, handle),
    {
        ConversationView { persona, handle, phase: Phase::Starting, needs_focus: true }
    }

    /// The persona the session belongs to.
    pub fn persona(&self) -> (p: &Persona)
        ensures
            p@ == self@.persona,
    {
        &self.persona
    }

    /// The number under which the caller holds the session's process.
    pub fn handle(&self) -> (h: u64)
        ensures
            h == self@.handle,
    {
        self.handle
    }

    /// The handle of the attached terminal; none while starting or after a failure.
    pub fn pty_handle(&self) -> (h: Option<u64>)
        ensures
            h == self@.pty_handle(),
    {
        match self.phase {
            Phase::Running => Some(self.handle),
            _ => None,
        }
    }

    /// The error text of a failed session.
    pub fn error(&self) -> (e: Option<&String>)
        ensures
            match e {
                Some(m) => self@.error() == Some(m@),
                None => self@.error() is None,
            },
    {
        match &self.phase {
            Phase::Failed(m) => Some(m),
            _ => None,
        }
    }

    /// Whether the session still waits for its spawn procedure to report.
    pub fn is_starting(&self) -> (b: bool)
        ensures
            b == (self@.phase is Starting),
    {
        match self.phase {
            Phase::Starting => true,
            _ => false,
        }
    }

    /// Takes the report of the spawn procedure. Success attaches the
    /// terminal; an error of any kind is kept as text and the session has no
    /// terminal. A session that is not starting ignores the report.
    pub fn spawn_finished(&mut self, outcome: Result<(), SpawnError>)
        ensures
            final(self)@ == old(self)@.spawn_finished(outcome),
    {
        if self.is_starting() {
            match outcome {
                Ok(_) => {
                    self.phase = Phase::Running;
                },
                Err(e) => {
                    let mut text = String::from_str("Failed to spawn terminal: ");
                    text.append(e.message().as_str());
                    self.phase = Phase::Failed(text);
                },
            }
        }
    }

    /// What to draw, and the one-shot focus request: the first time a running
    /// session is drawn its terminal is to take the keyboard.
    pub fn render(&mut self) -> (c: ViewContent)
        ensures
            c@ == old(self)@.content(),
            final(self)@ == old(self)@.rendered(),
    {
        match &self.phase {
            Phase::Failed(m) => ViewContent::Error(m.clone()),
            Phase::Running => {
                let focus = self.needs_focus;
                self.needs_focus = false;
                ViewContent::Terminal { handle: self.handle, focus }
            },
            Phase::Starting => ViewContent::Loading,
        }
    }

    /// The terminal that is to take the keyboard on request, if one is attached.
    pub fn focus(&self) -> (h: Option<u64>)
        ensures
            h == self@.pty_handle(),
    {
        self.pty_handle()
    }

    /// The resize to pass on for a layout of `cols` by `rows` cells: the
    /// terminal and its new size, or nothing where no terminal is attached.
    pub fn resize(&self, cols: usize, rows: usize) -> (r: Option<(u64, PtySize)>)
        ensures
            r == match self@.pty_handle() {
                Some(h) => Some((h, grid(cols as int % 0x10000, rows as int % 0x10000))),
                None => None,
            },
    {
        match self.pty_handle() {
            Some(h) => Some((h, resize_size(cols, rows))),
            None => None,
        }
    }
}

} // verus!
