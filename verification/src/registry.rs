//! The session registry: at most one session per persona.
//!
//! The registry is the only owner of sessions. It decides when a process has to
//! be spawned and under which handle number the caller holds it, takes the
//! spawn procedure's report, and hands a session back when it is destroyed so
//! that the caller can release what it holds for it.

use vstd::prelude::*;
use vstd::string::*;
use portable_pty::CommandBuilder;
use portable_pty::PtySize;
use crate::persona::{Persona, PersonaView};
use crate::pty::{agent_argv, agent_command, command_argv, command_cwd, grid, initial_size};
use crate::session::{ConversationView, PhaseView, SessionView, SpawnError, ViewContent, spawn_error_text};
use crate::text::str_eq;

verus! {

/// The bar above a session's terminal: the persona's name and whether the
/// terminal is expanded over the persona list.
#[derive(Debug)]
pub struct TerminalHeaderBar {
    persona_name: String,
    is_expanded: bool,
}

/// A header bar in contracts.
pub struct HeaderView {
    pub persona_name: Seq<char>,
    pub is_expanded: bool,
}

impl View for TerminalHeaderBar {
    type V = HeaderView;

    closed spec fn view(&self) -> HeaderView {
        HeaderView { persona_name: self.persona_name@, is_expanded: self.is_expanded }
    }
}

impl TerminalHeaderBar {
    /// A bar titled `persona_name`.
    pub fn new(persona_name: String, is_expanded: bool) -> (h: Self)
        ensures
            h@ == (HeaderView { persona_name: persona_name@, is_expanded }),
    {
        TerminalHeaderBar { persona_name, is_expanded }
    }

    /// Records whether the terminal is expanded.
    pub fn set_expanded(&mut self, is_expanded: bool)
        ensures
            final(self)@ == (HeaderView { is_expanded, ..old(self)@ }),
    {
        self.is_expanded = is_expanded;
    }

    /// Whether the terminal is expanded.
    pub fn is_expanded(&self) -> (b: bool)
        ensures
            b == self@.is_expanded,
    {
        self.is_expanded
    }

    /// The title the bar shows.
    pub fn persona_name(&self) -> (n: &String)
        ensures
            n@ == self@.persona_name,
    {
        &self.persona_name
    }

    /// The hint on the bar's toggle: what pressing it does.
    pub fn tooltip(&self) -> (t: &'static str)
        ensures
            t@ == if self@.is_expanded {
                "Collapse sidebar"@
            } else {
                "Expand terminal"@
            },
    {
        if self.is_expanded {
            "Collapse sidebar"
        } else {
            "Expand terminal"
        }
    }
}

/// A session with the bar drawn above it.
#[derive(Debug)]
pub struct Session {
    pub conversation: ConversationView,
    pub header: TerminalHeaderBar,
}

/// A registry entry in contracts.
pub struct SessionEntry {
    pub conversation: SessionView,
    pub header: HeaderView,
}

impl View for Session {
    type V = SessionEntry;

    open spec fn view(&self) -> SessionEntry {
        SessionEntry { conversation: self.conversation@, header: self.header@ }
    }
}

impl SessionEntry {
    /// The entry stored for a persona whose process is to be spawned under `handle`.
    pub open spec fn starting(persona: PersonaView, handle: u64, expanded: bool) -> SessionEntry {
        SessionEntry {
            conversation: SessionView::starting(persona, handle),
            header: HeaderView { persona_name: persona.name, is_expanded: expanded },
        }
    }

    /// The entry stored for a persona when no handle number is left: a
    /// session that failed at allocation.
    pub open spec fn exhausted(persona: PersonaView, expanded: bool) -> SessionEntry {
        SessionEntry {
            conversation: SessionView {
                phase: PhaseView::Failed(spawn_error_text("no terminal handle is left"@)),
                ..SessionView::starting(persona, u64::MAX)
            },
            header: HeaderView { persona_name: persona.name, is_expanded: expanded },
        }
    }
}

/// The registry in contracts: the sessions by persona identifier, and the
/// handle number that the next spawned process gets.
pub struct RegistryModel {
    pub sessions: Map<Seq<char>, SessionEntry>,
    pub next_handle: u64,
}

impl RegistryModel {
    /// What holds of every registry: each session is stored under its own
    /// persona's identifier; each handle number in use is below the next one
    /// to be given out, but for a session that failed for want of one; and no
    /// two sessions share a handle below it.
    pub open spec fn wf(self) -> bool {
        &&& self.sessions.dom().finite()
        &&& forall|id: Seq<char>| #[trigger]
            self.sessions.contains_key(id) ==> self.sessions[id].conversation.persona.id == id
        &&& forall|id: Seq<char>| #[trigger]
            self.sessions.contains_key(id) ==> {
                let c = self.sessions[id].conversation;
                c.handle < self.next_handle || (c.handle == u64::MAX && c.phase is Failed)
            }
        &&& forall|a: Seq<char>, b: Seq<char>|
            #![trigger self.sessions[a], self.sessions[b]]
            self.sessions.contains_key(a) && self.sessions.contains_key(b) && a != b
                && self.sessions[a].conversation.handle < self.next_handle
                ==> self.sessions[a].conversation.handle != self.sessions[b].conversation.handle
    }

    /// An empty registry.
    pub open spec fn empty() -> RegistryModel {
        RegistryModel { sessions: Map::empty(), next_handle: 0 }
    }

    /// Whether persona `id` has a session.
    pub open spec fn contains(self, id: Seq<char>) -> bool {
        self.sessions.contains_key(id)
    }

    /// The identifiers of the personas that have a session.
    pub open spec fn active_ids(self) -> Set<Seq<char>> {
        self.sessions.dom()
    }

    /// Whether a request for a session of persona `id` leads to a spawn.
    pub open spec fn spawns(self, id: Seq<char>) -> bool {
        !self.contains(id) && self.next_handle < u64::MAX
    }

    /// Requesting a session: an existing one stays as it is; otherwise a
    /// starting session is stored under the next handle number, or a failed
    /// one where none is left.
    pub open spec fn ensure(self, persona: PersonaView, expanded: bool) -> RegistryModel {
        if self.contains(persona.id) {
            self
        } else if self.next_handle < u64::MAX {
            RegistryModel {
                sessions: self.sessions.insert(
                    persona.id,
                    SessionEntry::starting(persona, self.next_handle, expanded),
                ),
                next_handle: (self.next_handle + 1) as u64,
            }
        } else {
            RegistryModel {
                sessions: self.sessions.insert(persona.id, SessionEntry::exhausted(persona, expanded)),
                ..self
            }
        }
    }

    /// Whether the session of persona `id` awaits the report for `handle`.
    pub open spec fn awaits(self, id: Seq<char>, handle: u64) -> bool {
        &&& self.sessions.contains_key(id)
        &&& self.sessions[id].conversation.handle == handle
        &&& self.sessions[id].conversation.phase is Starting
    }

    /// Whether some session awaits the report for `handle`.
    pub open spec fn awaited(self, handle: u64) -> bool {
        exists|id: Seq<char>| self.awaits(id, handle)
    }

    /// Taking the spawn procedure's report for `handle`: the session that
    /// awaits it runs or fails; with no such session nothing changes.
    pub open spec fn spawn_finished(self, handle: u64, outcome: Result<(), SpawnError>) -> RegistryModel {
        if self.awaited(handle) {
            let id = choose|id: Seq<char>| self.awaits(id, handle);
            let entry = self.sessions[id];
            RegistryModel {
                sessions: self.sessions.insert(
                    id,
                    SessionEntry { conversation: entry.conversation.spawn_finished(outcome), ..entry },
                ),
                ..self
            }
        } else {
            self
        }
    }

    /// Drawing the session of persona `id`: its focus request is used up.
    /// Nothing where there is no such session.
    pub open spec fn rendered(self, id: Seq<char>) -> RegistryModel {
        if self.contains(id) {
            RegistryModel {
                sessions: self.sessions.insert(
                    id,
                    SessionEntry {
                        conversation: self.sessions[id].conversation.rendered(),
                        ..self.sessions[id]
                    },
                ),
                ..self
            }
        } else {
            self
        }
    }

    /// Recording on the bar of persona `id`'s session whether its terminal
    /// is expanded. Nothing where there is no such session.
    pub open spec fn with_expanded(self, id: Seq<char>, is_expanded: bool) -> RegistryModel {
        if self.contains(id) {
            RegistryModel {
                sessions: self.sessions.insert(
                    id,
                    SessionEntry {
                        header: HeaderView { is_expanded, ..self.sessions[id].header },
                        ..self.sessions[id]
                    },
                ),
                ..self
            }
        } else {
            self
        }
    }

    /// What is drawn for persona `id`, where it has a session.
    pub open spec fn content(self, id: Seq<char>) -> Option<crate::session::ViewContentView> {
        if self.contains(id) {
            Some(self.sessions[id].conversation.content())
        } else {
            None
        }
    }

    /// Destroying the session of persona `id`: nothing where there is none.
    pub open spec fn destroy(self, id: Seq<char>) -> RegistryModel {
        RegistryModel { sessions: self.sessions.remove(id), ..self }
    }

    /// Destroying every session. Handle numbers given out stay used.
    pub open spec fn destroy_all(self) -> RegistryModel {
        RegistryModel { sessions: Map::empty(), ..self }
    }
}

/// Drawn content, where there is any, in contracts.
pub open spec fn opt_content(c: Option<ViewContent>) -> Option<crate::session::ViewContentView> {
    match c {
        Some(v) => Some(v@),
        None => None,
    }
}

/// What the caller is to do for a new session: allocate a terminal of `size`,
/// spawn `command` into it, detach the writer and the reader, keep the whole
/// under `handle`, and report the outcome for that handle.
#[derive(Debug)]
pub struct SpawnRequest {
    pub handle: u64,
    pub size: PtySize,
    pub command: CommandBuilder,
}

/// The persona identifier under which an entry is stored.
pub open spec fn entry_id(s: Session) -> Seq<char> {
    s@.conversation.persona.id
}

/// Whether `i` is a position of `entries` that holds the session of persona `id`.
pub open spec fn holds_at(entries: Seq<Session>, id: Seq<char>, i: int) -> bool {
    0 <= i < entries.len() && entry_id(entries[i]) == id
}

/// Whether `entries` holds a session of persona `id`.
pub open spec fn holds(entries: Seq<Session>, id: Seq<char>) -> bool {
    exists|i: int| holds_at(entries, id, i)
}

/// The sessions of `entries` by persona identifier.
pub open spec fn sessions_of(entries: Seq<Session>) -> Map<Seq<char>, SessionEntry> {
    Map::new(
        |id: Seq<char>| holds(entries, id),
        |id: Seq<char>| entries[choose|i: int| holds_at(entries, id, i)]@,
    )
}

/// No two entries belong to the same persona.
pub open spec fn distinct_ids(entries: Seq<Session>) -> bool {
    forall|i: int, j: int|
        0 <= i < j < entries.len() ==> entry_id(entries[i]) != entry_id(entries[j])
}

/// Handle numbers in use are below `next`, but for sessions that failed for
/// want of one, and no two entries share a handle below it.
pub open spec fn handles_below(entries: Seq<Session>, next: u64) -> bool {
    &&& forall|i: int|
        0 <= i < entries.len() ==> {
            let c = (#[trigger] entries[i])@.conversation;
            c.handle < next || (c.handle == u64::MAX && c.phase is Failed)
        }
    &&& forall|i: int, j: int|
        0 <= i < entries.len() && 0 <= j < entries.len() && i != j
            && entries[i]@.conversation.handle < next
            ==> entries[i]@.conversation.handle != entries[j]@.conversation.handle
}

/// With distinct identifiers, the session found for the identifier of entry
/// `i` is entry `i`.
pub proof fn lemma_sessions_at(entries: Seq<Session>, i: int)
    requires
        distinct_ids(entries),
        0 <= i < entries.len(),
    ensures
        holds(entries, entry_id(entries[i])),
        sessions_of(entries)[entry_id(entries[i])] == entries[i]@,
{
    let id = entry_id(entries[i]);
    assert(holds_at(entries, id, i));
    let k = choose|k: int| holds_at(entries, id, k);
    assert(holds_at(entries, id, k));
    assert(k == i);
}

/// The identifiers of `entries` are finitely many.
pub proof fn lemma_sessions_finite(entries: Seq<Session>)
    ensures
        sessions_of(entries).dom().finite(),
    decreases entries.len(),
{
    if entries.len() == 0 {
        assert(sessions_of(entries).dom() =~= Set::<Seq<char>>::empty());
    } else {
        let front = entries.drop_last();
        lemma_sessions_finite(front);
        let last = entry_id(entries.last());
        assert forall|id: Seq<char>|
            sessions_of(entries).dom().contains(id) <==> sessions_of(front).dom().insert(
                last,
            ).contains(id) by {
            if holds(entries, id) {
                let i = choose|i: int| holds_at(entries, id, i);
                if i < entries.len() - 1 {
                    assert(holds_at(front, id, i));
                }
            }
            if holds(front, id) {
                let i = choose|i: int| holds_at(front, id, i);
                assert(holds_at(entries, id, i));
            }
            if id == last {
                assert(holds_at(entries, id, entries.len() - 1));
            }
        }
        assert(sessions_of(entries).dom() =~= sessions_of(front).dom().insert(last));
    }
}

/// Entries with distinct identifiers and bounded, distinct handles make a
/// registry of which `wf` holds.
pub proof fn lemma_model_wf(entries: Seq<Session>, next: u64)
    requires
        distinct_ids(entries),
        handles_below(entries, next),
    ensures
        (RegistryModel { sessions: sessions_of(entries), next_handle: next }).wf(),
{
    let m = RegistryModel { sessions: sessions_of(entries), next_handle: next };
    lemma_sessions_finite(entries);
    assert forall|id: Seq<char>| #[trigger] m.sessions.contains_key(id) implies {
        let c = m.sessions[id].conversation;
        &&& c.persona.id == id
        &&& (c.handle < next || (c.handle == u64::MAX && c.phase is Failed))
    } by {
        let i = choose|i: int| holds_at(entries, id, i);
        assert(holds_at(entries, id, i));
    }
    assert forall|a: Seq<char>, b: Seq<char>|
        #![trigger m.sessions[a], m.sessions[b]]
        m.sessions.contains_key(a) && m.sessions.contains_key(b) && a != b
            && m.sessions[a].conversation.handle < next implies m.sessions[a].conversation.handle
        != m.sessions[b].conversation.handle by {
        let i = choose|i: int| holds_at(entries, a, i);
        let j = choose|j: int| holds_at(entries, b, j);
        assert(holds_at(entries, a, i));
        assert(holds_at(entries, b, j));
        assert(i != j);
    }
}

/// Appending the session of a persona that had none stores it under that
/// persona's identifier.
pub proof fn lemma_sessions_push(entries: Seq<Session>, s: Session)
    requires
        distinct_ids(entries),
        !holds(entries, entry_id(s)),
    ensures
        distinct_ids(entries.push(s)),
        sessions_of(entries.push(s)) == sessions_of(entries).insert(entry_id(s), s@),
{
    let after = entries.push(s);
    assert forall|i: int, j: int| 0 <= i < j < after.len() implies entry_id(after[i])
        != entry_id(after[j]) by {
        if j == entries.len() {
            assert(!holds_at(entries, entry_id(s), i));
        }
    }
    assert forall|id: Seq<char>| holds(after, id) <==> (id == entry_id(s) || holds(entries, id)) by {
        if holds(after, id) {
            let i = choose|i: int| holds_at(after, id, i);
            if i < entries.len() {
                assert(holds_at(entries, id, i));
            }
        }
        if holds(entries, id) {
            let i = choose|i: int| holds_at(entries, id, i);
            assert(holds_at(after, id, i));
        }
        if id == entry_id(s) {
            assert(holds_at(after, id, entries.len() as int));
        }
    }
    assert forall|id: Seq<char>| holds(after, id) implies sessions_of(after)[id] == sessions_of(
        entries,
    ).insert(entry_id(s), s@)[id] by {
        let i = choose|i: int| holds_at(after, id, i);
        assert(holds_at(after, id, i));
        lemma_sessions_at(after, i);
        if i < entries.len() {
            lemma_sessions_at(entries, i);
        }
    }
    assert(sessions_of(after) =~= sessions_of(entries).insert(entry_id(s), s@));
}

/// Taking entry `i` out removes the session of its persona and no other.
pub proof fn lemma_sessions_remove(entries: Seq<Session>, i: int)
    requires
        distinct_ids(entries),
        0 <= i < entries.len(),
    ensures
        distinct_ids(entries.remove(i)),
        sessions_of(entries.remove(i)) == sessions_of(entries).remove(entry_id(entries[i])),
{
    let after = entries.remove(i);
    let gone = entry_id(entries[i]);
    assert forall|a: int, b: int| 0 <= a < b < after.len() implies entry_id(after[a]) != entry_id(
        after[b],
    ) by {
        let a0 = if a < i { a } else { a + 1 };
        let b0 = if b < i { b } else { b + 1 };
        assert(after[a] == entries[a0]);
        assert(after[b] == entries[b0]);
    }
    assert forall|id: Seq<char>| holds(after, id) <==> (id != gone && holds(entries, id)) by {
        if holds(after, id) {
            let k = choose|k: int| holds_at(after, id, k);
            let k0 = if k < i { k } else { k + 1 };
            assert(after[k] == entries[k0]);
            assert(holds_at(entries, id, k0));
        }
        if id != gone && holds(entries, id) {
            let k = choose|k: int| holds_at(entries, id, k);
            let k1 = if k < i { k } else { k - 1 };
            assert(after[k1] == entries[k]);
            assert(holds_at(after, id, k1));
        }
    }
    assert forall|id: Seq<char>| holds(after, id) implies sessions_of(after)[id] == sessions_of(
        entries,
    )[id] by {
        let k = choose|k: int| holds_at(after, id, k);
        assert(holds_at(after, id, k));
        let k0 = if k < i { k } else { k + 1 };
        assert(after[k] == entries[k0]);
        lemma_sessions_at(after, k);
        lemma_sessions_at(entries, k0);
    }
    assert(sessions_of(after) =~= sessions_of(entries).remove(gone));
}

/// Replacing entry `i` by a session of the same persona replaces that
/// persona's session and no other.
pub proof fn lemma_sessions_update(entries: Seq<Session>, i: int, s: Session)
    requires
        distinct_ids(entries),
        0 <= i < entries.len(),
        entry_id(s) == entry_id(entries[i]),
    ensures
        distinct_ids(entries.update(i, s)),
        sessions_of(entries.update(i, s)) == sessions_of(entries).insert(entry_id(s), s@),
{
    let after = entries.update(i, s);
    assert forall|id: Seq<char>| holds(after, id) <==> holds(entries, id) by {
        if holds(after, id) {
            let k = choose|k: int| holds_at(after, id, k);
            assert(holds_at(entries, id, k));
        }
        if holds(entries, id) {
            let k = choose|k: int| holds_at(entries, id, k);
            assert(holds_at(after, id, k));
        }
    }
    assert(holds_at(entries, entry_id(s), i));
    assert forall|id: Seq<char>| holds(after, id) implies sessions_of(after)[id] == sessions_of(
        entries,
    ).insert(entry_id(s), s@)[id] by {
        let k = choose|k: int| holds_at(after, id, k);
        assert(holds_at(after, id, k));
        lemma_sessions_at(after, k);
        lemma_sessions_at(entries, k);
    }
    assert(sessions_of(after) =~= sessions_of(entries).insert(entry_id(s), s@));
}

/// With distinct identifiers there are as many sessions as entries.
pub proof fn lemma_sessions_len(entries: Seq<Session>)
    requires
        distinct_ids(entries),
    ensures
        sessions_of(entries).dom().finite(),
        sessions_of(entries).dom().len() == entries.len(),
    decreases entries.len(),
{
    lemma_sessions_finite(entries);
    if entries.len() == 0 {
        assert(sessions_of(entries).dom() =~= Set::<Seq<char>>::empty());
    } else {
        let front = entries.drop_last();
        let last = entries.last();
        lemma_sessions_len(front);
        assert(front.push(last) =~= entries);
        assert(!holds(front, entry_id(last))) by {
            if holds(front, entry_id(last)) {
                let k = choose|k: int| holds_at(front, entry_id(last), k);
                assert(entry_id(entries[k]) != entry_id(entries[entries.len() - 1]));
            }
        }
        lemma_sessions_push(front, last);
        assert(sessions_of(entries).dom() =~= sessions_of(front).dom().insert(entry_id(last)));
    }
}

/// The registry of sessions.
#[derive(Debug)]
pub struct SessionRegistry {
    entries: Vec<Session>,
    next_handle: u64,
}

impl View for SessionRegistry {
    type V = RegistryModel;

    closed spec fn view(&self) -> RegistryModel {
        RegistryModel { sessions: sessions_of(self.entries@), next_handle: self.next_handle }
    }
}

impl SessionRegistry {
    /// The registry's validity: what `new` establishes and every method
    /// keeps. It implies `RegistryModel::wf` of the view.
    pub closed spec fn wf(&self) -> bool {
        distinct_ids(self.entries@) && handles_below(self.entries@, self.next_handle)
    }

    /// Of a valid registry's view, `RegistryModel::wf` holds.
    pub proof fn lemma_view_wf(&self)
        requires
            self.wf(),
        ensures
            self@.wf(),
    {
        lemma_model_wf(self.entries@, self.next_handle);
    }

    /// A registry without sessions.
    pub fn new() -> (r: Self)
        ensures
            r@ == RegistryModel::empty(),
            r.wf(),
    {
        let r = SessionRegistry { entries: Vec::new(), next_handle: 0 };
        proof {
            assert(r@.sessions =~= Map::<Seq<char>, SessionEntry>::empty());
        }
        r
    }

    /// The position of the session of persona `id`.
    fn find(&self, id: &str) -> (r: Option<usize>)
        ensures
            match r {
                Some(i) => holds_at(self.entries@, id@, i as int),
                None => !holds(self.entries@, id@),
            },
    {
        let n = self.entries.len();
        let mut i: usize = 0;
        while i < n
            invariant
                i <= n,
                n == self.entries.len(),
                forall|j: int| 0 <= j < i ==> !holds_at(self.entries@, id@, j),
            decreases n - i,
        {
            if str_eq(self.entries[i].conversation.persona().id.as_str(), id) {
                return Some(i);
            }
            i += 1;
        }
        None
    }

    /// The position of the starting session whose process is to be held under `handle`.
    fn find_awaiting(&self, handle: u64) -> (i: usize)
        ensures
            i <= self.entries.len(),
            i < self.entries.len() ==> {
                let c = self.entries@[i as int]@.conversation;
                c.handle == handle && c.phase is Starting
            },
            i == self.entries.len() ==> forall|j: int|
                0 <= j < self.entries.len() ==> !({
                    let c = (#[trigger] self.entries@[j])@.conversation;
                    c.handle == handle && c.phase is Starting
                }),
    {
        let n = self.entries.len();
        let mut i: usize = 0;
        while i < n
            invariant
                i <= n,
                n == self.entries.len(),
                forall|j: int|
                    0 <= j < i ==> !({
                        let c = (#[trigger] self.entries@[j])@.conversation;
                        c.handle == handle && c.phase is Starting
                    }),
            decreases n - i,
        {
            if self.entries[i].conversation.handle() == handle
                && self.entries[i].conversation.is_starting() {
                return i;
            }
            i += 1;
        }
        n
    }

    /// The number of sessions.
    pub fn len(&self) -> (n: usize)
        requires
            self.wf(),
        ensures
            n == self@.sessions.dom().len(),
    {
        proof {
            lemma_sessions_len(self.entries@);
        }
        self.entries.len()
    }

    /// Whether persona `id` has a session.
    pub fn contains(&self, id: &str) -> (b: bool)
        ensures
            b == self@.contains(id@),
    {
        self.find(id).is_some()
    }

    /// The session of persona `id`.
    pub fn get(&self, id: &str) -> (r: Option<&Session>)
        requires
            self.wf(),
        ensures
            match r {
                Some(s) => self@.contains(id@) && s@ == self@.sessions[id@],
                None => !self@.contains(id@),
            },
    {
        match self.find(id) {
            Some(i) => {
                proof {
                    lemma_sessions_at(self.entries@, i as int);
                }
                Some(&self.entries[i])
            },
            None => None,
        }
    }

    /// Makes sure that `persona` has a session. Where it has one, nothing
    /// changes and nothing is to be spawned. Otherwise a starting session is
    /// stored and the result tells the caller what to spawn: the agent's
    /// command for the persona in `working_dir`, into a terminal of the
    /// initial size, held under a handle number that no session had before.
    /// Where no handle number is left, a failed session is stored instead.
    pub fn ensure_or_get(
        &mut self,
        persona: &Persona,
        continuation: bool,
        working_dir: &str,
        expanded: bool,
    ) -> (r: Option<SpawnRequest>)
        requires
            old(self).wf(),
        ensures
            final(self).wf(),
            final(self)@ == old(self)@.ensure(persona@, expanded),
            match r {
                Some(request) => {
                    &&& old(self)@.spawns(persona.id@)
                    &&& request.handle == old(self)@.next_handle
                    &&& request.size == grid(80, 24)
                    &&& command_argv(request.command) == agent_argv(persona.id@, continuation)
                    &&& command_cwd(request.command) == Some(working_dir@)
                },
                None => !old(self)@.spawns(persona.id@),
            },
    {
        if self.find(persona.id.as_str()).is_some() {
            return None;
        }
        let header = TerminalHeaderBar::new(persona.name.clone(), expanded);
        if self.next_handle < u64::MAX {
            let handle = self.next_handle;
            let session = Session { conversation: ConversationView::new(persona.clone(), handle), header };
            proof {
                lemma_sessions_push(self.entries@, session);
            }
            self.next_handle = handle + 1;
            self.entries.push(session);
            Some(
                SpawnRequest {
                    handle,
                    size: initial_size(),
                    command: agent_command(persona.id.as_str(), continuation, working_dir),
                },
            )
        } else {
            let mut conversation = ConversationView::new(persona.clone(), u64::MAX);
            conversation.spawn_finished(
                Err(SpawnError::Allocation(String::from_str("no terminal handle is left"))),
            );
            let session = Session { conversation, header };
            proof {
                lemma_sessions_push(self.entries@, session);
            }
            self.entries.push(session);
            None
        }
    }

    /// Takes the spawn procedure's report for `handle`. The session that
    /// awaits it runs, or fails with the error kept as text. The result says
    /// whether a session took the report: where none did (the session was
    /// destroyed meanwhile), nothing changes and the caller releases what it
    /// holds under `handle`.
    pub fn spawn_finished(&mut self, handle: u64, outcome: Result<(), SpawnError>) -> (taken: bool)
        requires
            old(self).wf(),
        ensures
            final(self).wf(),
            taken == old(self)@.awaited(handle),
            final(self)@ == old(self)@.spawn_finished(handle, outcome),
    {
        let n = self.entries.len();
        let i = self.find_awaiting(handle);
        if i < n {
            let ghost before = self.entries@;
            let ghost id = entry_id(before[i as int]);
            let mut session = self.entries.remove(i);
            session.conversation.spawn_finished(outcome);
            proof {
                lemma_sessions_at(before, i as int);
                assert(old(self)@.awaits(id, handle));
                assert forall|other: Seq<char>| old(self)@.awaits(other, handle) implies other
                    == id by {
                    let k = choose|k: int| holds_at(before, other, k);
                    assert(holds_at(before, other, k));
                    lemma_sessions_at(before, k);
                }
                lemma_sessions_update(before, i as int, session);
                assert(before.remove(i as int).insert(i as int, session) =~= before.update(
                    i as int,
                    session,
                ));
            }
            self.entries.insert(i, session);
            true
        } else {
            proof {
                assert forall|id: Seq<char>| !old(self)@.awaits(id, handle) by {
                    if old(self)@.sessions.contains_key(id) {
                        let k = choose|k: int| holds_at(self.entries@, id, k);
                        assert(holds_at(self.entries@, id, k));
                        lemma_sessions_at(self.entries@, k);
                    }
                }
            }
            false
        }
    }

    /// Destroys the session of persona `id` and hands it back, so that the
    /// caller releases the process it holds under the session's handle.
    /// Where the persona has no session nothing changes.
    pub fn destroy(&mut self, id: &str) -> (r: Option<Session>)
        requires
            old(self).wf(),
        ensures
            final(self).wf(),
            final(self)@ == old(self)@.destroy(id@),
            match r {
                Some(s) => old(self)@.contains(id@) && s@ == old(self)@.sessions[id@],
                None => !old(self)@.contains(id@),
            },
    {
        match self.find(id) {
            Some(i) => {
                proof {
                    lemma_sessions_at(self.entries@, i as int);
                    lemma_sessions_remove(self.entries@, i as int);
                }
                let s = self.entries.remove(i);
                Some(s)
            },
            None => {
                assert(self@.sessions.remove(id@) =~= self@.sessions);
                None
            },
        }
    }

    /// Starts a fresh session for `persona` in the place of the one it has,
    /// if any: the old session is destroyed and handed back for the caller
    /// to release, and a starting session is stored as `ensure_or_get`
    /// stores one. A stale session is replaced, never started again in place.
    pub fn replace(
        &mut self,
        persona: &Persona,
        continuation: bool,
        working_dir: &str,
        expanded: bool,
    ) -> (r: (Option<Session>, Option<SpawnRequest>))
        requires
            old(self).wf(),
        ensures
            final(self).wf(),
            final(self)@ == old(self)@.destroy(persona.id@).ensure(persona@, expanded),
            match r.0 {
                Some(s) => old(self)@.contains(persona.id@) && s@ == old(self)@.sessions[persona.id@],
                None => !old(self)@.contains(persona.id@),
            },
            match r.1 {
                Some(request) => {
                    &&& old(self)@.next_handle < u64::MAX
                    &&& request.handle == old(self)@.next_handle
                    &&& request.size == grid(80, 24)
                    &&& command_argv(request.command) == agent_argv(persona.id@, continuation)
                    &&& command_cwd(request.command) == Some(working_dir@)
                },
                None => old(self)@.next_handle == u64::MAX,
            },
    {
        let gone = self.destroy(persona.id.as_str());
        let request = self.ensure_or_get(persona, continuation, working_dir, expanded);
        (gone, request)
    }

    /// Destroys every session and hands them all back, each to be released
    /// by the caller. No session is left.
    pub fn destroy_all(&mut self) -> (r: Vec<Session>)
        requires
            old(self).wf(),
        ensures
            final(self).wf(),
            final(self)@ == old(self)@.destroy_all(),
            final(self)@.active_ids() == Set::<Seq<char>>::empty(),
            r@.len() == old(self)@.sessions.dom().len(),
            forall|id: Seq<char>|
                old(self)@.contains(id) ==> exists|i: int|
                    0 <= i < r@.len() && (#[trigger] r@[i])@ == old(self)@.sessions[id],
            forall|i: int|
                0 <= i < r@.len() ==> old(self)@.contains(entry_id(#[trigger] r@[i])) && r@[i]@
                    == old(self)@.sessions[entry_id(r@[i])],
    {
        proof {
            lemma_sessions_len(self.entries@);
        }
        let ghost before = self.entries@;
        let mut taken: Vec<Session> = Vec::new();
        std::mem::swap(&mut self.entries, &mut taken);
        proof {
            assert(sessions_of(self.entries@) =~= Map::<Seq<char>, SessionEntry>::empty());
            assert forall|id: Seq<char>| old(self)@.contains(id) implies exists|i: int|
                0 <= i < taken@.len() && (#[trigger] taken@[i])@ == old(self)@.sessions[id] by {
                let k = choose|k: int| holds_at(before, id, k);
                assert(holds_at(before, id, k));
                lemma_sessions_at(before, k);
            }
            assert forall|i: int| 0 <= i < taken@.len() implies old(self)@.contains(
                entry_id(#[trigger] taken@[i]),
            ) && taken@[i]@ == old(self)@.sessions[entry_id(taken@[i])] by {
                lemma_sessions_at(before, i);
            }
        }
        taken
    }

    /// What to draw for the session of persona `id`, with the one-shot focus
    /// request of `ConversationView::render`; nothing where the persona has no
    /// session.
    pub fn render(&mut self, id: &str) -> (r: Option<ViewContent>)
        requires
            old(self).wf(),
        ensures
            final(self).wf(),
            final(self)@ == old(self)@.rendered(id@),
            opt_content(r) == old(self)@.content(id@),
    {
        match self.find(id) {
            Some(i) => {
                proof {
                    lemma_sessions_at(self.entries@, i as int);
                }
                let mut session = self.entries.remove(i);
                let content = session.conversation.render();
                proof {
                    assert(self.entries@ =~= old(self).entries@.remove(i as int));
                }
                self.entries.insert(i, session);
                proof {
                    assert(self.entries@ =~= old(self).entries@.update(i as int, session));
                    lemma_sessions_update(old(self).entries@, i as int, session);
                }
                Some(content)
            },
            None => None,
        }
    }

    /// Records on the bar of persona `id`'s session whether its terminal is
    /// expanded. The result says whether the persona has a session.
    pub fn set_expanded(&mut self, id: &str, is_expanded: bool) -> (found: bool)
        requires
            old(self).wf(),
        ensures
            final(self).wf(),
            found == old(self)@.contains(id@),
            final(self)@ == old(self)@.with_expanded(id@, is_expanded),
    {
        match self.find(id) {
            Some(i) => {
                proof {
                    lemma_sessions_at(self.entries@, i as int);
                }
                let mut session = self.entries.remove(i);
                session.header.set_expanded(is_expanded);
                proof {
                    assert(self.entries@ =~= old(self).entries@.remove(i as int));
                }
                self.entries.insert(i, session);
                proof {
                    assert(self.entries@ =~= old(self).entries@.update(i as int, session));
                    lemma_sessions_update(old(self).entries@, i as int, session);
                }
                true
            },
            None => false,
        }
    }

    /// The resize to pass on for persona `id`'s session when its layout
    /// becomes `cols` by `rows` cells: the terminal's handle and its new size.
    /// Nothing where the persona has no session or no terminal is attached.
    pub fn resize(&self, id: &str, cols: usize, rows: usize) -> (r: Option<(u64, PtySize)>)
        requires
            self.wf(),
        ensures
            r == if self@.contains(id@) {
                match self@.sessions[id@].conversation.pty_handle() {
                    Some(h) => Some((h, grid(cols as int % 0x10000, rows as int % 0x10000))),
                    None => None,
                }
            } else {
                None
            },
    {
        match self.get(id) {
            Some(s) => s.conversation.resize(cols, rows),
            None => None,
        }
    }

    /// The identifiers of the personas that have a session, each once.
    pub fn active_ids(&self) -> (ids: Vec<String>)
        requires
            self.wf(),
        ensures
            ids@.map_values(|s: String| s@).to_set() == self@.active_ids(),
            ids@.map_values(|s: String| s@).no_duplicates(),
            ids@.len() == self@.active_ids().len(),
    {
        proof {
            lemma_sessions_len(self.entries@);
        }
        let n = self.entries.len();
        let mut ids: Vec<String> = Vec::new();
        let mut i: usize = 0;
        while i < n
            invariant
                i <= n,
                n == self.entries.len(),
                ids@.len() == i,
                forall|j: int| 0 <= j < i ==> (#[trigger] ids@[j])@ == entry_id(self.entries@[j]),
            decreases n - i,
        {
            ids.push(self.entries[i].conversation.persona().id.clone());
            i += 1;
        }
        proof {
            let texts = ids@.map_values(|s: String| s@);
            assert forall|id: Seq<char>| texts.to_set().contains(id) <==> self@.active_ids().contains(
                id,
            ) by {
                if texts.contains(id) {
                    let j = choose|j: int| 0 <= j < texts.len() && texts[j] == id;
                    assert(holds_at(self.entries@, id, j));
                }
                if holds(self.entries@, id) {
                    let j = choose|j: int| holds_at(self.entries@, id, j);
                    assert(texts[j] == id);
                }
            }
            assert(texts.to_set() =~= self@.active_ids());
            assert forall|a: int, b: int| 0 <= a < texts.len() && 0 <= b < texts.len() && a
                != b implies texts[a] != texts[b] by {
                if a < b {
                    assert(entry_id(self.entries@[a]) != entry_id(self.entries@[b]));
                } else {
                    assert(entry_id(self.entries@[b]) != entry_id(self.entries@[a]));
                }
            }
        }
        ids
    }
}

/// No transition gives a handle number back: the next one to be given out
/// never becomes smaller.
pub proof fn law_handles_only_grow(
    r: RegistryModel,
    persona: PersonaView,
    expanded: bool,
    handle: u64,
    outcome: Result<(), SpawnError>,
)
    ensures
        r.ensure(persona, expanded).next_handle >= r.next_handle,
        r.spawn_finished(handle, outcome).next_handle == r.next_handle,
        r.destroy(persona.id).next_handle == r.next_handle,
        r.destroy_all().next_handle == r.next_handle,
{
}

/// Every transition keeps a registry valid.
pub proof fn law_transitions_keep_wf(
    r: RegistryModel,
    persona: PersonaView,
    expanded: bool,
    handle: u64,
    outcome: Result<(), SpawnError>,
)
    requires
        r.wf(),
    ensures
        r.ensure(persona, expanded).wf(),
        r.spawn_finished(handle, outcome).wf(),
        r.destroy(persona.id).wf(),
        r.destroy_all().wf(),
{
    let e = r.ensure(persona, expanded);
    assert(e.wf()) by {
        assert forall|a: Seq<char>, b: Seq<char>|
            #![trigger e.sessions[a], e.sessions[b]]
            e.sessions.contains_key(a) && e.sessions.contains_key(b) && a != b
                && e.sessions[a].conversation.handle < e.next_handle implies e.sessions[a].conversation.handle
            != e.sessions[b].conversation.handle by {
            if r.sessions.contains_key(a) {
                assert(r.sessions[a] == e.sessions[a]);
            }
            if r.sessions.contains_key(b) {
                assert(r.sessions[b] == e.sessions[b]);
            }
        }
    }
    let f = r.spawn_finished(handle, outcome);
    assert(f.wf()) by {
        if r.awaited(handle) {
            let id = choose|id: Seq<char>| r.awaits(id, handle);
            assert(r.awaits(id, handle));
            assert(f.sessions.dom() =~= r.sessions.dom());
            assert forall|a: Seq<char>, b: Seq<char>|
                #![trigger f.sessions[a], f.sessions[b]]
                f.sessions.contains_key(a) && f.sessions.contains_key(b) && a != b
                    && f.sessions[a].conversation.handle < f.next_handle implies f.sessions[a].conversation.handle
                != f.sessions[b].conversation.handle by {
                assert(r.sessions[a].conversation.handle == f.sessions[a].conversation.handle);
                assert(r.sessions[b].conversation.handle == f.sessions[b].conversation.handle);
            }
        }
    }
    let d = r.destroy(persona.id);
    assert(d.wf()) by {
        assert forall|a: Seq<char>, b: Seq<char>|
            #![trigger d.sessions[a], d.sessions[b]]
            d.sessions.contains_key(a) && d.sessions.contains_key(b) && a != b
                && d.sessions[a].conversation.handle < d.next_handle implies d.sessions[a].conversation.handle
            != d.sessions[b].conversation.handle by {
            assert(r.sessions[a] == d.sessions[a]);
            assert(r.sessions[b] == d.sessions[b]);
        }
    }
}

/// A request for a session of a persona that has one changes nothing, and
/// after any request the persona has exactly one session: asking twice is
/// asking once.
pub proof fn law_ensure_is_idempotent(r: RegistryModel, persona: PersonaView, expanded: bool, again: bool)
    ensures
        r.ensure(persona, expanded).contains(persona.id),
        !r.ensure(persona, expanded).spawns(persona.id),
        r.ensure(persona, expanded).ensure(persona, again) == r.ensure(persona, expanded),
        r.contains(persona.id) ==> r.ensure(persona, expanded) == r,
{
}

/// Destroying a session releases its handle for good: the session that a
/// later request starts for the same persona is held under a handle number
/// that no session of the registry had, the destroyed one included.
pub proof fn law_destroyed_handle_is_not_reused(r: RegistryModel, persona: PersonaView, expanded: bool)
    requires
        r.wf(),
        r.contains(persona.id),
    ensures
        ({
            let id = persona.id;
            let after = r.destroy(id).ensure(persona, expanded);
            &&& !r.destroy(id).contains(id)
            &&& after.contains(id)
            &&& r.next_handle < u64::MAX ==> {
                &&& after.sessions[id] == SessionEntry::starting(persona, r.next_handle, expanded)
                &&& after.sessions[id].conversation.handle != r.sessions[id].conversation.handle
                &&& forall|other: Seq<char>|
                    r.contains(other) ==> (#[trigger] r.sessions[other]).conversation.handle
                        != after.sessions[id].conversation.handle
            }
        }),
{
}

/// A failed spawn is local to its session: the report changes no other
/// session, and whether a request for any other persona leads to a spawn is
/// what it was before.
pub proof fn law_spawn_failure_is_local(r: RegistryModel, handle: u64, error: SpawnError, p: Seq<char>, q: Seq<char>)
    requires
        r.wf(),
        r.awaits(p, handle),
        q != p,
    ensures
        ({
            let after = r.spawn_finished(handle, Err(error));
            &&& after.sessions[p].conversation.phase == PhaseView::Failed(spawn_error_text(error.text()))
            &&& after.sessions[p].conversation.pty_handle() is None
            &&& after.contains(q) == r.contains(q)
            &&& r.contains(q) ==> after.sessions[q] == r.sessions[q]
            &&& after.spawns(q) == r.spawns(q)
            &&& after.next_handle == r.next_handle
        }),
{
    let id = choose|id: Seq<char>| r.awaits(id, handle);
    assert(r.awaits(id, handle));
    assert(id == p);
}

/// After every session was destroyed none is left, whatever was there.
pub proof fn law_destroy_all_leaves_none(r: RegistryModel)
    ensures
        r.destroy_all().active_ids() == Set::<Seq<char>>::empty(),
        r.destroy_all().active_ids().len() == 0,
        forall|id: Seq<char>| !r.destroy_all().contains(id),
{
    assert(r.destroy_all().sessions.dom() =~= Set::<Seq<char>>::empty());
}

} // verus!
