//! Persisted-workspace state: the map of named window layouts and the rules
//! for saving, removing, renaming and taking workspaces.

use vstd::prelude::*;
use crate::text::chars_of;
use crate::keyed::{
    lemma_text_lt_total, lemma_text_lt_transitive, text_less, text_lt,
    entries_map, keys_unique, lemma_entries_map_contains, lemma_entries_map_index,
    lemma_entries_map_push, lemma_entries_map_remove, lemma_entries_map_update, str_eq,
};

verus! {

/// The part of a persisted window layout that the workspace map carries.
#[derive(Debug, PartialEq, Eq)]
pub struct WindowLayout {
    tab_layout: Vec<String>,
}

/// The tab layout as a sequence of texts.
pub open spec fn texts(v: Seq<String>) -> Seq<Seq<char>> {
    v.map_values(|s: String| s@)
}

impl View for WindowLayout {
    type V = Seq<Seq<char>>;

    closed spec fn view(&self) -> Seq<Seq<char>> {
        texts(self.tab_layout@)
    }
}

impl WindowLayout {
    pub fn with_tab_layout(tab_layout: Vec<String>) -> (r: Self)
        ensures
            r@ == texts(tab_layout@),
    {
        WindowLayout { tab_layout }
    }

    pub fn tab_layout(&self) -> (r: &[String])
        ensures
            texts(r@) == self@,
    {
        self.tab_layout.as_slice()
    }
}

impl Clone for WindowLayout {
    fn clone(&self) -> (r: Self)
        ensures
            r@ == self@,
    {
        let mut tab_layout: Vec<String> = Vec::new();
        let mut i: usize = 0;
        while i < self.tab_layout.len()
            invariant
                i <= self.tab_layout@.len(),
                texts(tab_layout@) == texts(self.tab_layout@).subrange(0, i as int),
            decreases self.tab_layout@.len() - i,
        {
            let tab = self.tab_layout[i].clone();
            let ghost before = tab_layout@;
            tab_layout.push(tab);
            assert(texts(tab_layout@) =~= texts(before).push(tab@));
            assert(texts(self.tab_layout@).subrange(0, i + 1) =~= texts(self.tab_layout@).subrange(
                0,
                i as int,
            ).push(self.tab_layout@[i as int]@));
            i = i + 1;
        }
        assert(texts(self.tab_layout@).subrange(0, self.tab_layout@.len() as int) =~= texts(
            self.tab_layout@,
        ));
        WindowLayout { tab_layout }
    }
}

impl Default for WindowLayout {
    fn default() -> (r: Self)
        ensures
            r@.len() == 0,
    {
        let r = WindowLayout { tab_layout: Vec::new() };
        assert(r@ =~= Seq::<Seq<char>>::empty());
        r
    }
}

/// The mutation chosen for a workspace-rename request.
#[derive(Debug, Clone, Copy, PartialEq, Eq, Structural)]
pub enum WorkspaceRenamePlan {
    Noop,
    Remove,
    Rename,
}

/// Rename rules: an empty old name, equal names or a missing old entry leave
/// the map alone; otherwise an empty new name removes the old entry and a
/// non-empty one moves it.
pub open spec fn spec_workspace_rename_plan(
    old_name_empty: bool,
    names_equal: bool,
    old_exists: bool,
    new_name_empty: bool,
) -> WorkspaceRenamePlan {
    if old_name_empty || names_equal || !old_exists {
        WorkspaceRenamePlan::Noop
    } else if new_name_empty {
        WorkspaceRenamePlan::Remove
    } else {
        WorkspaceRenamePlan::Rename
    }
}

/// Resolves the rename rules from storage-independent facts.
pub fn workspace_rename_plan(
    old_name_empty: bool,
    names_equal: bool,
    old_exists: bool,
    new_name_empty: bool,
) -> (r: WorkspaceRenamePlan)
    ensures
        r == spec_workspace_rename_plan(old_name_empty, names_equal, old_exists, new_name_empty),
{
    if old_name_empty || names_equal || !old_exists {
        WorkspaceRenamePlan::Noop
    } else if new_name_empty {
        WorkspaceRenamePlan::Remove
    } else {
        WorkspaceRenamePlan::Rename
    }
}

/// Named window layouts; each name occurs once.
#[derive(Debug, Eq)]
pub struct WorkspaceMap {
    entries: Vec<(String, WindowLayout)>,
}

pub open spec fn entry_view(e: (String, WindowLayout)) -> (Seq<char>, Seq<Seq<char>>) {
    (e.0@, e.1@)
}

impl WorkspaceMap {
    pub closed spec fn entry_seq(&self) -> Seq<(Seq<char>, Seq<Seq<char>>)> {
        self.entries@.map_values(|e: (String, WindowLayout)| entry_view(e))
    }

    #[verifier::type_invariant]
    closed spec fn well_formed(&self) -> bool {
        keys_unique(self.entry_seq())
    }

    pub closed spec fn view(&self) -> Map<Seq<char>, Seq<Seq<char>>> {
        entries_map(self.entry_seq())
    }

    pub fn new() -> (r: Self)
        ensures
            r.view() == Map::<Seq<char>, Seq<Seq<char>>>::empty(),
    {
        let r = WorkspaceMap { entries: Vec::new() };
        assert(r.entry_seq() =~= Seq::empty());
        r
    }

    /// Index of the entry named `key`.
    fn find(&self, key: &str) -> (r: Option<usize>)
        ensures
            match r {
                Some(i) => i < self.entry_seq().len() && self.entry_seq()[i as int].0 == key@,
                None => !self.view().dom().contains(key@),
            },
    {
        let mut i: usize = 0;
        while i < self.entries.len()
            invariant
                i <= self.entries@.len(),
                self.entry_seq().len() == self.entries@.len(),
                forall|j: int| 0 <= j < i ==> (#[trigger] self.entry_seq()[j]).0 != key@,
            decreases self.entries@.len() - i,
        {
            if str_eq(self.entries[i].0.as_str(), key) {
                return Some(i);
            }
            i = i + 1;
        }
        proof {
            lemma_entries_map_contains(self.entry_seq(), key@);
        }
        None
    }

    pub fn get(&self, key: &str) -> (r: Option<&WindowLayout>)
        ensures
            match r {
                Some(v) => self.view().dom().contains(key@) && v@ == self.view()[key@],
                None => !self.view().dom().contains(key@),
            },
    {
        proof {
            use_type_invariant(self);
        }
        match self.find(key) {
            Some(i) => {
                proof {
                    lemma_entries_map_index(self.entry_seq(), i as int);
                }
                Some(&self.entries[i].1)
            },
            None => None,
        }
    }

    pub fn contains_key(&self, key: &str) -> (r: bool)
        ensures
            r == self.view().dom().contains(key@),
    {
        proof {
            use_type_invariant(self);
        }
        match self.find(key) {
            Some(i) => {
                proof {
                    lemma_entries_map_index(self.entry_seq(), i as int);
                }
                true
            },
            None => false,
        }
    }

    pub fn is_empty(&self) -> (r: bool)
        ensures
            r == (self.view() == Map::<Seq<char>, Seq<Seq<char>>>::empty()),
    {
        proof {
            if self.entry_seq().len() == 0 {
                assert(self.view() =~= Map::<Seq<char>, Seq<Seq<char>>>::empty());
            } else {
                let k = self.entry_seq().last().0;
                assert(self.view().dom().contains(k));
            }
        }
        self.entries.len() == 0
    }

    /// Inserts or replaces the entry `key`.
    pub fn insert(&mut self, key: String, value: WindowLayout)
        ensures
            final(self).view() == old(self).view().insert(key@, value@),
    {
        proof {
            use_type_invariant(&*self);
        }
        match self.find(key.as_str()) {
            Some(i) => {
                proof {
                    lemma_entries_map_update(self.entry_seq(), i as int, value@);
                }
                let ghost before = self.entry_seq();
                let ghost vv = value@;
                let mut entries: Vec<(String, WindowLayout)> = Vec::new();
                std::mem::swap(&mut entries, &mut self.entries);
                entries.set(i, (key, value));
                assert(entries@.map_values(|e: (String, WindowLayout)| entry_view(e))
                    =~= before.update(i as int, (before[i as int].0, vv)));
                self.entries = entries;
            },
            None => {
                proof {
                    lemma_entries_map_push(self.entry_seq(), key@, value@);
                }
                let ghost before = self.entry_seq();
                let ghost k = key@;
                let ghost vv = value@;
                let mut entries: Vec<(String, WindowLayout)> = Vec::new();
                std::mem::swap(&mut entries, &mut self.entries);
                entries.push((key, value));
                assert(entries@.map_values(|e: (String, WindowLayout)| entry_view(e))
                    =~= before.push((k, vv)));
                self.entries = entries;
            },
        }
    }

    /// Removes the entry `key`, returning its value when there was one.
    pub fn remove(&mut self, key: &str) -> (r: Option<WindowLayout>)
        ensures
            final(self).view() == old(self).view().remove(key@),
            match r {
                Some(v) => old(self).view().dom().contains(key@) && v@ == old(self).view()[key@],
                None => !old(self).view().dom().contains(key@),
            },
    {
        proof {
            use_type_invariant(&*self);
        }
        match self.find(key) {
            Some(i) => {
                proof {
                    lemma_entries_map_index(self.entry_seq(), i as int);
                    lemma_entries_map_remove(self.entry_seq(), i as int);
                }
                let ghost before = self.entry_seq();
                let mut entries: Vec<(String, WindowLayout)> = Vec::new();
                std::mem::swap(&mut entries, &mut self.entries);
                let (_, value) = entries.remove(i);
                assert(entries@.map_values(|e: (String, WindowLayout)| entry_view(e))
                    =~= before.remove(i as int));
                self.entries = entries;
                Some(value)
            },
            None => {
                assert(self.view() =~= self.view().remove(key@));
                None
            },
        }
    }
}

/// Whether two layouts hold the same tabs in the same order.
fn same_layout(a: &WindowLayout, b: &WindowLayout) -> (r: bool)
    ensures
        r == (a@ == b@),
{
    let n = a.tab_layout.len();
    if n != b.tab_layout.len() {
        assert(a@.len() != b@.len());
        return false;
    }
    let mut i: usize = 0;
    while i < n
        invariant
            i <= n,
            n == a.tab_layout@.len(),
            n == b.tab_layout@.len(),
            forall|j: int| 0 <= j < i ==> a@[j] == b@[j],
        decreases n - i,
    {
        if a.tab_layout[i] != b.tab_layout[i] {
            assert(a@[i as int] != b@[i as int]);
            return false;
        }
        i = i + 1;
    }
    assert(a@ =~= b@);
    true
}

impl WorkspaceMap {
    /// Whether every workspace of `self` is in `other` with the same layout.
    fn within(&self, other: &WorkspaceMap) -> (r: bool)
        ensures
            r == forall|k: Seq<char>|
                #[trigger] self.view().dom().contains(k) ==> other.view().dom().contains(k)
                    && other.view()[k] == self.view()[k],
    {
        proof {
            use_type_invariant(self);
        }
        let mut i: usize = 0;
        while i < self.entries.len()
            invariant
                i <= self.entries@.len(),
                self.entry_seq().len() == self.entries@.len(),
                keys_unique(self.entry_seq()),
                forall|j: int|
                    0 <= j < i ==> other.view().dom().contains(#[trigger] self.entry_seq()[j].0)
                        && other.view()[self.entry_seq()[j].0] == self.entry_seq()[j].1,
            decreases self.entries@.len() - i,
        {
            proof {
                lemma_entries_map_index(self.entry_seq(), i as int);
            }
            let found = match other.get(self.entries[i].0.as_str()) {
                None => false,
                Some(layout) => same_layout(layout, &self.entries[i].1),
            };
            if !found {
                proof {
                    let k = self.entry_seq()[i as int].0;
                    assert(self.view().dom().contains(k));
                    assert(!(other.view().dom().contains(k) && other.view()[k] == self.view()[k]));
                }
                return false;
            }
            i = i + 1;
        }
        proof {
            assert forall|k: Seq<char>| #[trigger] self.view().dom().contains(k) implies other.view().dom().contains(k)
                && other.view()[k] == self.view()[k] by {
                lemma_entries_map_contains(self.entry_seq(), k);
                let j = choose|j: int| 0 <= j < self.entry_seq().len() && #[trigger] self.entry_seq()[j].0 == k;
                lemma_entries_map_index(self.entry_seq(), j);
            }
        }
        true
    }
}

impl WorkspaceMap {
    /// The workspace names in ascending order, as an ordered map lists them.
    pub fn names(&self) -> (r: Vec<String>)
        ensures
            forall|t: int| 0 <= t < r@.len() ==> self.view().dom().contains(#[trigger] r@[t]@),
            forall|k: Seq<char>|
                #[trigger] self.view().dom().contains(k) ==> exists|t: int|
                    0 <= t < r@.len() && #[trigger] r@[t]@ == k,
            forall|t: int, u: int|
                0 <= t < u < r@.len() ==> text_lt(#[trigger] r@[t]@, #[trigger] r@[u]@),
    {
        proof {
            use_type_invariant(self);
        }
        let ghost es = self.entry_seq();
        let n = self.entries.len();
        let mut r: Vec<String> = Vec::new();
        let mut i: usize = 0;
        while i < n
            invariant
                i <= n,
                n == self.entries@.len(),
                es == self.entry_seq(),
                es.len() == n,
                keys_unique(es),
                forall|t: int| 0 <= t < r@.len() ==> self.view().dom().contains(#[trigger] r@[t]@),
                forall|t: int, j: int|
                    0 <= t < r@.len() && i <= j < n ==> #[trigger] es[j].0 != #[trigger] r@[t]@,
                forall|j: int|
                    0 <= j < i ==> exists|t: int| 0 <= t < r@.len() && #[trigger] r@[t]@ == #[trigger] es[j].0,
                forall|t: int, u: int|
                    0 <= t < u < r@.len() ==> text_lt(#[trigger] r@[t]@, #[trigger] r@[u]@),
            decreases n - i,
        {
            let key = self.entries[i].0.clone();
            let key_chars = chars_of(key.as_str());
            proof {
                lemma_entries_map_index(es, i as int);
            }
            let mut p: usize = 0;
            while p < r.len() && text_less(chars_of(r[p].as_str()).as_slice(), key_chars.as_slice())
                invariant
                    p <= r@.len(),
                    key_chars@ == key@,
                    forall|q: int| 0 <= q < p ==> text_lt(#[trigger] r@[q]@, key@),
                decreases r@.len() - p,
            {
                p = p + 1;
            }
            proof {
                assert forall|q: int| p <= q < r@.len() implies text_lt(key@, #[trigger] r@[q]@) by {
                    assert(es[i as int].0 != r@[q]@);
                    lemma_text_lt_total(key@, r@[p as int]@);
                    if q > p {
                        lemma_text_lt_transitive(key@, r@[p as int]@, r@[q]@);
                    }
                }
            }
            let ghost old_r = r@;
            r.insert(p, key);
            proof {
                assert forall|t: int, u: int| 0 <= t < u < r@.len() implies text_lt(
                    #[trigger] r@[t]@,
                    #[trigger] r@[u]@,
                ) by {
                    if u < p {
                        assert(r@[t] == old_r[t] && r@[u] == old_r[u]);
                    } else if u == p {
                        assert(r@[t] == old_r[t]);
                    } else if t < p {
                        assert(r@[t] == old_r[t] && r@[u] == old_r[u - 1]);
                        lemma_text_lt_transitive(old_r[t]@, es[i as int].0, old_r[u - 1]@);
                    } else if t == p {
                        assert(r@[u] == old_r[u - 1]);
                    } else {
                        assert(r@[t] == old_r[t - 1] && r@[u] == old_r[u - 1]);
                    }
                }
                assert forall|t: int| 0 <= t < r@.len() implies self.view().dom().contains(#[trigger] r@[t]@) by {
                    if t < p {
                        assert(r@[t] == old_r[t]);
                    } else if t > p {
                        assert(r@[t] == old_r[t - 1]);
                    }
                }
                assert forall|t: int, j: int|
                    0 <= t < r@.len() && i + 1 <= j < n implies #[trigger] es[j].0 != #[trigger] r@[t]@ by {
                    if t < p {
                        assert(r@[t] == old_r[t]);
                    } else if t > p {
                        assert(r@[t] == old_r[t - 1]);
                    }
                }
                assert forall|j: int| 0 <= j < i + 1 implies exists|t: int|
                    0 <= t < r@.len() && #[trigger] r@[t]@ == #[trigger] es[j].0 by {
                    if j == i {
                        assert(r@[p as int]@ == es[j].0);
                    } else {
                        let t0 = choose|t: int| 0 <= t < old_r.len() && #[trigger] old_r[t]@ == es[j].0;
                        if t0 < p {
                            assert(r@[t0] == old_r[t0]);
                        } else {
                            assert(r@[t0 + 1] == old_r[t0]);
                        }
                    }
                }
            }
            i = i + 1;
        }
        proof {
            assert forall|k: Seq<char>| #[trigger] self.view().dom().contains(k) implies exists|t: int|
                0 <= t < r@.len() && #[trigger] r@[t]@ == k by {
                lemma_entries_map_contains(es, k);
                let j = choose|j: int| 0 <= j < es.len() && #[trigger] es[j].0 == k;
                assert(exists|t: int| 0 <= t < r@.len() && #[trigger] r@[t]@ == #[trigger] es[j].0);
            }
        }
        r
    }
}

impl PartialEq for WorkspaceMap {
    /// The same names with the same layouts, in whatever order they were saved.
    fn eq(&self, other: &Self) -> (r: bool) {
        let r = self.within(other) && other.within(self);
        proof {
            if r {
                assert(self.view() =~= other.view());
            }
        }
        r
    }
}

impl vstd::std_specs::cmp::PartialEqSpecImpl for WorkspaceMap {
    open spec fn obeys_eq_spec() -> bool {
        true
    }

    open spec fn eq_spec(&self, other: &WorkspaceMap) -> bool {
        self.view() == other.view()
    }
}

impl Clone for WorkspaceMap {
    fn clone(&self) -> (r: Self)
        ensures
            r.view() == self.view(),
    {
        proof {
            use_type_invariant(self);
        }
        let mut entries: Vec<(String, WindowLayout)> = Vec::new();
        let mut i: usize = 0;
        while i < self.entries.len()
            invariant
                i <= self.entries@.len(),
                self.entry_seq().len() == self.entries@.len(),
                entries@.map_values(|e: (String, WindowLayout)| entry_view(e))
                    == self.entry_seq().subrange(0, i as int),
            decreases self.entries@.len() - i,
        {
            let name = self.entries[i].0.clone();
            let layout = self.entries[i].1.clone();
            let ghost before = entries@;
            entries.push((name, layout));
            assert(entries@.map_values(|e: (String, WindowLayout)| entry_view(e)) =~= before.map_values(
                |e: (String, WindowLayout)| entry_view(e),
            ).push(self.entry_seq()[i as int]));
            assert(self.entry_seq().subrange(0, i + 1) =~= self.entry_seq().subrange(0, i as int).push(
                self.entry_seq()[i as int],
            ));
            i = i + 1;
        }
        assert(self.entry_seq().subrange(0, self.entry_seq().len() as int) =~= self.entry_seq());
        WorkspaceMap { entries }
    }
}

/// Persisted workspaces by name.
#[derive(Debug, Eq)]
pub struct ApplicationState {
    persisted_workspaces: WorkspaceMap,
}

impl ApplicationState {
    pub closed spec fn view(&self) -> Map<Seq<char>, Seq<Seq<char>>> {
        self.persisted_workspaces.view()
    }

    pub fn new() -> (r: Self)
        ensures
            r.view() == Map::<Seq<char>, Seq<Seq<char>>>::empty(),
    {
        ApplicationState { persisted_workspaces: WorkspaceMap::new() }
    }

    /// Inserts or replaces the workspace `name`.
    pub fn save_workspace(&mut self, name: &str, layout: WindowLayout)
        ensures
            final(self).view() == old(self).view().insert(name@, layout@),
    {
        self.persisted_workspaces.insert(name.to_owned(), layout);
    }

    /// Removes `name`, returning whether the map was modified.
    pub fn remove_workspace(&mut self, name: &str) -> (r: bool)
        ensures
            final(self).view() == old(self).view().remove(name@),
            r == old(self).view().dom().contains(name@),
            r == (final(self).view() != old(self).view()),
    {
        let removed = self.persisted_workspaces.remove(name);
        proof {
            if removed is Some {
                assert(!self.view().dom().contains(name@));
            } else {
                assert(self.view() =~= old(self).view());
            }
        }
        removed.is_some()
    }

    /// Renames a workspace: equal names, an empty old name or a missing old
    /// entry change nothing; an empty new name removes the old entry; a
    /// non-empty new name moves the layout there, replacing any entry that
    /// had that name.
    pub fn rename_workspace(&mut self, old_name: &str, new_name: &str) -> (r: bool)
        ensures
            ({
                let before = old(self).view();
                match spec_workspace_rename_plan(
                    old_name@.len() == 0,
                    old_name@ == new_name@,
                    before.dom().contains(old_name@),
                    new_name@.len() == 0,
                ) {
                    WorkspaceRenamePlan::Noop => !r && final(self).view() == before,
                    WorkspaceRenamePlan::Remove => r && final(self).view() == before.remove(
                        old_name@,
                    ),
                    WorkspaceRenamePlan::Rename => r && final(self).view() == before.remove(
                        old_name@,
                    ).insert(new_name@, before[old_name@]),
                }
            }),
    {
        let plan = workspace_rename_plan(
            old_name.is_empty(),
            str_eq(old_name, new_name),
            self.persisted_workspaces.contains_key(old_name),
            new_name.is_empty(),
        );
        match plan {
            WorkspaceRenamePlan::Noop => false,
            WorkspaceRenamePlan::Remove => self.persisted_workspaces.remove(old_name).is_some(),
            WorkspaceRenamePlan::Rename => {
                let layout = match self.persisted_workspaces.remove(old_name) {
                    Some(layout) => layout,
                    None => {
                        return false;
                    },
                };
                self.persisted_workspaces.insert(new_name.to_owned(), layout);
                true
            },
        }
    }

    /// Removes and returns the workspace `name`.
    pub fn take_workspace(&mut self, name: &str) -> (r: Option<WindowLayout>)
        ensures
            final(self).view() == old(self).view().remove(name@),
            match r {
                Some(v) => old(self).view().dom().contains(name@) && v@ == old(self).view()[name@],
                None => !old(self).view().dom().contains(name@),
            },
    {
        self.persisted_workspaces.remove(name)
    }

    pub fn all_persisted_workspaces(&self) -> (r: &WorkspaceMap)
        ensures
            r.view() == self.view(),
    {
        &self.persisted_workspaces
    }
}

/// A saved workspace reads back as the saved layout, and saving leaves every
/// other workspace as it was.
pub proof fn law_saved_workspace_reads_back(
    m: Map<Seq<char>, Seq<Seq<char>>>,
    name: Seq<char>,
    layout: Seq<Seq<char>>,
    other: Seq<char>,
)
    ensures
        m.insert(name, layout).dom().contains(name),
        m.insert(name, layout)[name] == layout,
        other != name ==> (m.insert(name, layout).dom().contains(other) == m.dom().contains(other)
            && m.insert(name, layout)[other] == m[other]),
{
}

/// A rename that is carried out moves the layout: the new name holds the
/// old layout and the old name is gone.
pub proof fn law_rename_moves_layout(
    m: Map<Seq<char>, Seq<Seq<char>>>,
    old_name: Seq<char>,
    new_name: Seq<char>,
)
    requires
        spec_workspace_rename_plan(
            old_name.len() == 0,
            old_name == new_name,
            m.dom().contains(old_name),
            new_name.len() == 0,
        ) == WorkspaceRenamePlan::Rename,
    ensures
        ({
            let after = m.remove(old_name).insert(new_name, m[old_name]);
            &&& after.dom().contains(new_name)
            &&& after[new_name] == m[old_name]
            &&& !after.dom().contains(old_name)
            &&& forall|k: Seq<char>|
                k != old_name && k != new_name ==> (after.dom().contains(k) == m.dom().contains(k))
        }),
{
}

/// Renaming an existing workspace to the empty name removes it.
pub proof fn law_rename_to_empty_removes(
    m: Map<Seq<char>, Seq<Seq<char>>>,
    old_name: Seq<char>,
    new_name: Seq<char>,
)
    requires
        old_name.len() > 0,
        new_name.len() == 0,
        m.dom().contains(old_name),
    ensures
        spec_workspace_rename_plan(
            old_name.len() == 0,
            old_name == new_name,
            m.dom().contains(old_name),
            new_name.len() == 0,
        ) == WorkspaceRenamePlan::Remove,
{
}

/// A rename changes nothing exactly when the old name is empty, the names
/// are equal, or the old workspace does not exist.
pub proof fn law_rename_noop_cases(
    old_name_empty: bool,
    names_equal: bool,
    old_exists: bool,
    new_name_empty: bool,
)
    ensures
        (spec_workspace_rename_plan(old_name_empty, names_equal, old_exists, new_name_empty)
            == WorkspaceRenamePlan::Noop) <==> (old_name_empty || names_equal || !old_exists),
{
}

impl PartialEq for ApplicationState {
    /// The same workspaces, in whatever order they were saved.
    fn eq(&self, other: &Self) -> (r: bool) {
        self.persisted_workspaces.eq(&other.persisted_workspaces)
    }
}

impl vstd::std_specs::cmp::PartialEqSpecImpl for ApplicationState {
    open spec fn obeys_eq_spec() -> bool {
        true
    }

    open spec fn eq_spec(&self, other: &ApplicationState) -> bool {
        self.view() == other.view()
    }
}

impl Clone for ApplicationState {
    fn clone(&self) -> (r: Self)
        ensures
            r.view() == self.view(),
    {
        ApplicationState { persisted_workspaces: self.persisted_workspaces.clone() }
    }
}

impl Default for ApplicationState {
    fn default() -> (r: Self)
        ensures
            r.view() == Map::<Seq<char>, Seq<Seq<char>>>::empty(),
    {
        ApplicationState::new()
    }
}

} // verus!
