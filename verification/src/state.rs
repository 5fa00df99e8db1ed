//! Navigation state: the ordered tabs of open personas and the active one.

use vstd::prelude::*;
use crate::persona::Persona;
use crate::text::str_eq;

verus! {

/// The top-level view the window shows.
#[derive(Debug, Clone, Copy, PartialEq, Eq, Structural)]
pub enum NavigationView {
    Personas,
    Memory,
    Settings,
}

impl Default for NavigationView {
    fn default() -> (r: Self)
        ensures
            r == NavigationView::Personas,
    {
        NavigationView::Personas
    }
}

/// One open tab: which persona it shows and under what title.
#[derive(Debug)]
pub struct ConversationTab {
    pub persona_id: String,
    pub persona_name: String,
}

/// A tab in contracts.
pub struct TabView {
    pub persona_id: Seq<char>,
    pub persona_name: Seq<char>,
}

impl View for ConversationTab {
    type V = TabView;

    open spec fn view(&self) -> TabView {
        TabView { persona_id: self.persona_id@, persona_name: self.persona_name@ }
    }
}

impl Clone for ConversationTab {
    fn clone(&self) -> (r: Self)
        ensures
            r@ == self@,
    {
        ConversationTab {
            persona_id: self.persona_id.clone(),
            persona_name: self.persona_name.clone(),
        }
    }
}

/// The tabs of a vector, in order.
pub open spec fn tab_views(tabs: Seq<ConversationTab>) -> Seq<TabView> {
    tabs.map_values(|t: ConversationTab| t@)
}

/// A tab sequence in contracts: the tabs in insertion order and the active position.
pub struct TabSequence {
    pub tabs: Seq<TabView>,
    pub active: Option<int>,
}

impl TabSequence {
    /// The active position, where there is one, is a position of the sequence.
    pub open spec fn wf(self) -> bool {
        self.active matches Some(i) ==> 0 <= i < self.tabs.len()
    }

    /// No two tabs show the same persona.
    pub open spec fn distinct(self) -> bool {
        forall|i: int, j: int|
            0 <= i < j < self.tabs.len() ==> self.tabs[i].persona_id != self.tabs[j].persona_id
    }

    /// Whether `i` is the first position whose tab shows persona `id`.
    pub open spec fn first_at(self, id: Seq<char>, i: int) -> bool {
        &&& 0 <= i < self.tabs.len()
        &&& self.tabs[i].persona_id == id
        &&& forall|j: int| 0 <= j < i ==> self.tabs[j].persona_id != id
    }

    /// Whether some tab shows persona `id`.
    pub open spec fn has(self, id: Seq<char>) -> bool {
        exists|i: int| 0 <= i < self.tabs.len() && self.tabs[i].persona_id == id
    }

    /// The first position whose tab shows persona `id`.
    pub open spec fn position(self, id: Seq<char>) -> Option<int> {
        if self.has(id) {
            Some(choose|i: int| self.first_at(id, i))
        } else {
            None
        }
    }

    /// Opening a persona: an existing tab is activated where it stands, a new
    /// one is appended and activated.
    pub open spec fn open(self, id: Seq<char>, name: Seq<char>) -> TabSequence {
        match self.position(id) {
            Some(i) => TabSequence { tabs: self.tabs, active: Some(i) },
            None => TabSequence {
                tabs: self.tabs.push(TabView { persona_id: id, persona_name: name }),
                active: Some(self.tabs.len() as int),
            },
        }
    }

    /// The active position after the tab at `index` has left a sequence whose
    /// active position was `active` and which now has `len` tabs.
    pub open spec fn repaired(active: Option<int>, index: int, len: int) -> Option<int> {
        if len == 0 {
            None
        } else {
            match active {
                None => None,
                Some(a) => if a >= len {
                    Some(len - 1)
                } else if a > index {
                    Some(a - 1)
                } else {
                    Some(a)
                },
            }
        }
    }

    /// Closing the tab at `index`: nothing where there is no such tab.
    pub open spec fn close(self, index: int) -> TabSequence {
        if 0 <= index < self.tabs.len() {
            TabSequence {
                tabs: self.tabs.remove(index),
                active: Self::repaired(self.active, index, self.tabs.len() - 1),
            }
        } else {
            self
        }
    }

    /// Selecting the tab at `index`: nothing where there is no such tab.
    pub open spec fn select(self, index: int) -> TabSequence {
        if 0 <= index < self.tabs.len() {
            TabSequence { tabs: self.tabs, active: Some(index) }
        } else {
            self
        }
    }
}

/// The active position as an integer.
pub open spec fn opt_index(i: Option<usize>) -> Option<int> {
    match i {
        Some(n) => Some(n as int),
        None => None,
    }
}

/// The navigation state of the application.
#[derive(Debug, Clone)]
pub struct AppState {
    pub current_view: NavigationView,
    pub personas: Vec<Persona>,
    pub open_tabs: Vec<ConversationTab>,
    pub active_tab_index: Option<usize>,
}

impl View for AppState {
    type V = TabSequence;

    open spec fn view(&self) -> TabSequence {
        TabSequence { tabs: tab_views(self.open_tabs@), active: opt_index(self.active_tab_index) }
    }
}

impl Default for AppState {
    fn default() -> (s: Self)
        ensures
            s.personas@.len() == 0,
            s.current_view == NavigationView::Personas,
            s@.tabs.len() == 0,
            s@.active is None,
    {
        AppState::new(Vec::new())
    }
}

/// The first position that shows `id` is the only position that `first_at` accepts.
pub proof fn lemma_first_at_unique(s: TabSequence, id: Seq<char>, i: int)
    requires
        s.first_at(id, i),
    ensures
        s.has(id),
        s.position(id) == Some(i),
{
    let k = choose|k: int| s.first_at(id, k);
    assert(s.first_at(id, k));
    assert(k == i) by {
        if k < i {
            assert(s.tabs[k].persona_id != id);
        } else if i < k {
            assert(s.tabs[i].persona_id != id);
        }
    }
}

impl AppState {
    /// A state with no tab open that shows the persona list.
    pub fn new(personas: Vec<Persona>) -> (s: Self)
        ensures
            s.personas == personas,
            s.current_view == NavigationView::Personas,
            s@.tabs.len() == 0,
            s@.active is None,
            s@.wf(),
            s@.distinct(),
    {
        AppState {
            current_view: NavigationView::Personas,
            personas,
            open_tabs: Vec::new(),
            active_tab_index: None,
        }
    }

    /// Opens a tab for `persona`, or activates the one it already has.
    pub fn open_conversation(&mut self, persona: &Persona)
        ensures
            final(self)@ == old(self)@.open(persona.id@, persona.name@),
            final(self)@.wf(),
            final(self)@.has(persona.id@),
            old(self)@.distinct() ==> final(self)@.distinct(),
            final(self).current_view == old(self).current_view,
            final(self).personas == old(self).personas,
    {
        let ghost pre = self@;
        let n = self.open_tabs.len();
        let mut i: usize = 0;
        while i < n
            invariant
                i <= n,
                n == self.open_tabs.len(),
                *self == *old(self),
                pre == self@,
                forall|j: int| 0 <= j < i ==> pre.tabs[j].persona_id != persona.id@,
            decreases n - i,
        {
            if self.open_tabs[i].persona_id == persona.id {
                proof {
                    lemma_first_at_unique(pre, persona.id@, i as int);
                }
                self.active_tab_index = Some(i);
                return ;
            }
            i += 1;
        }
        assert(!pre.has(persona.id@));
        let tab = ConversationTab {
            persona_id: persona.id.clone(),
            persona_name: persona.name.clone(),
        };
        self.open_tabs.push(tab);
        self.active_tab_index = Some(n);
        proof {
            let post = self@;
            assert(post.tabs =~= pre.tabs.push(
                TabView { persona_id: persona.id@, persona_name: persona.name@ },
            ));
            assert(post.tabs[n as int].persona_id == persona.id@);
        }
    }

    /// Closes the tab at `index` and repairs the active position; a stale
    /// index changes nothing.
    pub fn close_tab(&mut self, index: usize)
        ensures
            final(self)@ == old(self)@.close(index as int),
            old(self)@.wf() ==> final(self)@.wf(),
            old(self)@.distinct() ==> final(self)@.distinct(),
            final(self).current_view == old(self).current_view,
            final(self).personas == old(self).personas,
    {
        if index >= self.open_tabs.len() {
            return ;
        }
        let ghost pre = self@;
        self.open_tabs.remove(index);
        let len = self.open_tabs.len();
        if len == 0 {
            self.active_tab_index = None;
        } else {
            match self.active_tab_index {
                Some(active) => {
                    if active >= len {
                        self.active_tab_index = Some(len - 1);
                    } else if active > index {
                        self.active_tab_index = Some(active - 1);
                    }
                },
                None => {},
            }
        }
        proof {
            assert(self@.tabs =~= pre.tabs.remove(index as int));
        }
    }

    /// The first persona whose identifier is `id`.
    pub fn get_persona_by_id(&self, id: &str) -> (r: Option<&Persona>)
        ensures
            match r {
                Some(p) => exists|i: int|
                    0 <= i < self.personas.len() && *p == self.personas[i] && p.id@ == id@
                        && forall|j: int| 0 <= j < i ==> self.personas[j].id@ != id@,
                None => forall|i: int| 0 <= i < self.personas.len() ==> self.personas[i].id@ != id@,
            },
    {
        let n = self.personas.len();
        let mut i: usize = 0;
        while i < n
            invariant
                i <= n,
                n == self.personas.len(),
                forall|j: int| 0 <= j < i ==> self.personas[j].id@ != id@,
            decreases n - i,
        {
            if str_eq(self.personas[i].id.as_str(), id) {
                return Some(&self.personas[i]);
            }
            i += 1;
        }
        None
    }

    /// The position the tab bar marks as selected: the active one, or the
    /// first where none is active.
    pub fn selected_index(&self) -> (i: usize)
        ensures
            i == match self.active_tab_index {
                Some(a) => a,
                None => 0,
            },
    {
        match self.active_tab_index {
            Some(a) => a,
            None => 0,
        }
    }

    /// Activates the tab at `index`; a stale index changes nothing.
    pub fn set_active_tab(&mut self, index: usize)
        ensures
            final(self)@ == old(self)@.select(index as int),
            old(self)@.wf() ==> final(self)@.wf(),
            final(self).open_tabs == old(self).open_tabs,
            final(self).current_view == old(self).current_view,
            final(self).personas == old(self).personas,
    {
        if index < self.open_tabs.len() {
            self.active_tab_index = Some(index);
        }
    }
}

/// Opening a persona leaves exactly one tab for it, and that tab is active.
pub proof fn law_open_leaves_one_tab(s: TabSequence, id: Seq<char>, name: Seq<char>)
    requires
        s.distinct(),
    ensures
        ({
            let after = s.open(id, name);
            &&& after.distinct()
            &&& after.wf()
            &&& (after.active matches Some(a) && after.tabs[a].persona_id == id)
            &&& forall|i: int|
                0 <= i < after.tabs.len() && after.tabs[i].persona_id == id ==> Some(i)
                    == after.active
        }),
{
    let after = s.open(id, name);
    if s.has(id) {
        let k = choose|k: int| s.first_at(id, k);
        let w = choose|i: int| 0 <= i < s.tabs.len() && s.tabs[i].persona_id == id;
        lemma_has_first(s, id, w);
        assert(s.first_at(id, k));
        assert forall|i: int|
            0 <= i < after.tabs.len() && after.tabs[i].persona_id == id implies Some(i)
            == after.active by {
            if i < k {
                assert(s.tabs[i].persona_id != s.tabs[k].persona_id);
            } else if k < i {
                assert(s.tabs[k].persona_id != s.tabs[i].persona_id);
            }
        }
    } else {
        assert forall|i: int, j: int| 0 <= i < j < after.tabs.len() implies after.tabs[i].persona_id
            != after.tabs[j].persona_id by {
            if j == s.tabs.len() {
                assert(s.tabs[i].persona_id != id);
            }
        }
    }
}

/// Where some position shows persona `id`, a first such position exists.
pub proof fn lemma_has_first(s: TabSequence, id: Seq<char>, i: int)
    requires
        0 <= i < s.tabs.len(),
        s.tabs[i].persona_id == id,
    ensures
        exists|k: int| s.first_at(id, k),
    decreases i,
{
    if exists|j: int| 0 <= j < i && s.tabs[j].persona_id == id {
        let j = choose|j: int| 0 <= j < i && s.tabs[j].persona_id == id;
        lemma_has_first(s, id, j);
    } else {
        assert(s.first_at(id, i));
    }
}

/// Opening a persona a second time is selecting the tab it already has: no
/// tab is added, none moves, and the active position is that tab's.
pub proof fn law_open_twice_is_select(s: TabSequence, id: Seq<char>, name: Seq<char>, again: Seq<char>)
    ensures
        ({
            let once = s.open(id, name);
            let twice = once.open(id, again);
            &&& (once.position(id) matches Some(i) && twice == once.select(i))
            &&& twice == once
        }),
{
    let once = s.open(id, name);
    if s.has(id) {
        let w = choose|i: int| 0 <= i < s.tabs.len() && s.tabs[i].persona_id == id;
        lemma_has_first(s, id, w);
        let k = choose|k: int| s.first_at(id, k);
        assert(s.first_at(id, k));
        assert(once.first_at(id, k));
        lemma_first_at_unique(once, id, k);
    } else {
        let n = s.tabs.len() as int;
        assert(once.tabs[n].persona_id == id);
        assert(once.first_at(id, n));
        lemma_first_at_unique(once, id, n);
    }
}

/// Closing the active tab when it is the last of the sequence makes the new
/// last tab active, or none where no tab is left.
pub proof fn law_close_active_last(s: TabSequence)
    requires
        s.tabs.len() > 0,
        s.active == Some(s.tabs.len() - 1),
    ensures
        ({
            let after = s.close(s.tabs.len() - 1);
            &&& after.tabs == s.tabs.drop_last()
            &&& after.active == if s.tabs.len() == 1 {
                None::<int>
            } else {
                Some(after.tabs.len() - 1)
            }
        }),
{
    assert(s.tabs.remove(s.tabs.len() - 1) =~= s.tabs.drop_last());
}

/// Closing keeps the active position valid, and it then shows the tab it
/// showed before unless that tab was the one closed.
pub proof fn law_close_keeps_active_tab(s: TabSequence, index: int)
    requires
        s.wf(),
        0 <= index < s.tabs.len(),
    ensures
        s.close(index).wf(),
        s.tabs.len() == 1 ==> s.close(index).active is None,
        s.active is None ==> s.close(index).active is None,
        s.active matches Some(a) ==> (a != index ==> (s.close(index).active matches Some(b)
            && s.close(index).tabs[b] == s.tabs[a])),
        s.active == Some(index) && index < s.tabs.len() - 1 ==> s.close(index).active == Some(index)
            && s.close(index).tabs[index] == s.tabs[index + 1],
{
}

/// Selecting a position that the sequence does not have changes nothing,
/// however often it is done.
pub proof fn law_select_out_of_range(s: TabSequence, index: int)
    requires
        index >= s.tabs.len(),
    ensures
        s.select(index) == s,
        s.select(index).select(index) == s,
{
}

/// Closing a position that the sequence does not have changes nothing.
pub proof fn law_close_out_of_range(s: TabSequence, index: int)
    requires
        index >= s.tabs.len(),
    ensures
        s.close(index) == s,
{
}

} // verus!
