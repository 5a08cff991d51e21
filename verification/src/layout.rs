//! The sidebar widths of the windows.
//!
//! Each window reserves a strip on its left for the sidebar. The registry
//! remembers how wide that strip is, window by window; a window it has never
//! heard of gets the default width. An update writes the width of one window
//! and leaves the others as they are.

use vstd::prelude::*;

verus! {

/// The sidebar width, in logical units, of a window without an entry.
pub const DEFAULT_WIDTH: u64 = 205;

/// What the registry remembers about one window's sidebar.
#[derive(Clone, Copy, Debug, PartialEq, Eq, Structural)]
pub struct SidebarState {
    /// The width of the sidebar in logical units.
    pub width: u64,
}

struct SidebarEntry {
    label: String,
    state: SidebarState,
}

/// The sidebar widths of all windows, by window label.
pub struct SidebarManager {
    entries: Vec<SidebarEntry>,
}

/// Whether some entry among the first `upto` carries `label`.
spec fn labelled(entries: Seq<SidebarEntry>, upto: int, label: Seq<char>) -> bool {
    exists|i: int| 0 <= i < upto && #[trigger] entries[i].label@ == label
}

/// Whether entry `i` is the first that carries `label`.
spec fn is_first(entries: Seq<SidebarEntry>, i: int, label: Seq<char>) -> bool {
    &&& 0 <= i < entries.len()
    &&& entries[i].label@ == label
    &&& !labelled(entries, i, label)
}

/// The position of the first entry that carries `label`.
spec fn first_position(entries: Seq<SidebarEntry>, label: Seq<char>) -> int {
    choose|i: int| is_first(entries, i, label)
}

/// Among the first `upto` entries, a label that occurs has a first occurrence.
proof fn lemma_first_exists(entries: Seq<SidebarEntry>, upto: int, label: Seq<char>)
    requires
        0 <= upto <= entries.len(),
        labelled(entries, upto, label),
    ensures
        exists|i: int| 0 <= i < upto && is_first(entries, i, label),
    decreases upto,
{
    if labelled(entries, upto - 1, label) {
        lemma_first_exists(entries, upto - 1, label);
    } else {
        let w = choose|w: int| 0 <= w < upto && #[trigger] entries[w].label@ == label;
        assert(w == upto - 1);
        assert(is_first(entries, upto - 1, label));
    }
}

/// A label has one first occurrence only, and `first_position` names it.
proof fn lemma_first_position(entries: Seq<SidebarEntry>, i: int, label: Seq<char>)
    requires
        is_first(entries, i, label),
    ensures
        first_position(entries, label) == i,
        labelled(entries, entries.len() as int, label),
{
    let p = first_position(entries, label);
    assert(is_first(entries, p, label));
    if p < i {
        assert(entries[p].label@ == label);
    }
    if i < p {
        assert(entries[i].label@ == label);
    }
}

/// The first occurrence of every label stays where it is when the entries
/// keep their labels and new entries come only behind them.
proof fn lemma_first_kept(before: Seq<SidebarEntry>, after: Seq<SidebarEntry>, label: Seq<char>)
    requires
        before.len() <= after.len(),
        forall|j: int| 0 <= j < before.len() ==> #[trigger] after[j].label@ == before[j].label@,
        labelled(before, before.len() as int, label),
    ensures
        labelled(after, after.len() as int, label),
        first_position(after, label) == first_position(before, label),
{
    lemma_first_exists(before, before.len() as int, label);
    let p = first_position(before, label);
    assert(is_first(before, p, label));
    assert(after[p].label@ == label);
    if labelled(after, p, label) {
        let w = choose|w: int| 0 <= w < p && #[trigger] after[w].label@ == label;
        assert(before[w].label@ == label);
    }
    assert(is_first(after, p, label));
    lemma_first_position(after, p, label);
}

/// The width the registry `widths` answers for `label`.
pub open spec fn width_of(widths: Map<Seq<char>, SidebarState>, label: Seq<char>) -> u64 {
    if widths.contains_key(label) {
        widths[label].width
    } else {
        DEFAULT_WIDTH
    }
}

impl View for SidebarManager {
    type V = Map<Seq<char>, SidebarState>;

    /// The remembered sidebar state of each window that has an entry.
    closed spec fn view(&self) -> Map<Seq<char>, SidebarState> {
        Map::new(
            |label: Seq<char>| labelled(self.entries@, self.entries@.len() as int, label),
            |label: Seq<char>| self.entries@[first_position(self.entries@, label)].state,
        )
    }
}

impl Default for SidebarManager {
    /// A registry without entries.
    fn default() -> (registry: SidebarManager)
        ensures
            registry@ == Map::<Seq<char>, SidebarState>::empty(),
    {
        SidebarManager::new()
    }
}

impl SidebarManager {
    /// A registry without entries: every window has the default width.
    pub fn new() -> (registry: SidebarManager)
        ensures
            registry@ == Map::<Seq<char>, SidebarState>::empty(),
    {
        let registry = SidebarManager { entries: Vec::new() };
        assert(registry@ =~= Map::<Seq<char>, SidebarState>::empty());
        registry
    }

    /// Finds the first entry of `label`, if there is one.
    fn find(&self, label: &String) -> (found: Option<usize>)
        ensures
            match found {
                Some(i) => is_first(self.entries@, i as int, label@) && self@.contains_key(label@)
                    && self@[label@] == self.entries@[i as int].state,
                None => !self@.contains_key(label@),
            },
    {
        let mut i: usize = 0;
        while i < self.entries.len()
            invariant
                i <= self.entries@.len(),
                !labelled(self.entries@, i as int, label@),
            decreases self.entries@.len() - i,
        {
            if self.entries[i].label == *label {
                proof {
                    lemma_first_position(self.entries@, i as int, label@);
                }
                return Some(i);
            }
            i += 1;
        }
        None
    }

    /// Remembers `state` for the window `window_label`, whether or not it had
    /// an entry before.
    pub fn set(&mut self, window_label: &str, state: SidebarState)
        ensures
            final(self)@ == old(self)@.insert(window_label@, state),
    {
        let label: String = window_label.to_owned();
        let ghost before = self.entries@;
        let found = self.find(&label);
        let entry = SidebarEntry { label, state };
        match found {
            Some(i) => {
                self.entries.set(i, entry);
            },
            None => {
                self.entries.push(entry);
            },
        }
        proof {
            let after = self.entries@;
            let at: int = match found {
                Some(i) => i as int,
                None => before.len() as int,
            };
            assert(after[at].label@ == window_label@);
            assert(after[at].state == state);
            assert forall|j: int| 0 <= j < before.len() && j != at implies #[trigger] after[j]
                == before[j] by {}
            assert(is_first(after, at, window_label@)) by {
                if labelled(after, at, window_label@) {
                    let w = choose|w: int| 0 <= w < at && #[trigger] after[w].label@ == window_label@;
                    assert(before[w].label@ == window_label@);
                    assert(labelled(before, before.len() as int, window_label@));
                }
            }
            lemma_first_position(after, at, window_label@);
            assert forall|k: Seq<char>|
                k != window_label@ && labelled(before, before.len() as int, k) implies labelled(
                after,
                after.len() as int,
                k,
            ) && after[first_position(after, k)].state == before[first_position(before, k)].state by {
                lemma_first_kept(before, after, k);
                lemma_first_exists(before, before.len() as int, k);
                assert(is_first(before, first_position(before, k), k));
            }
            assert forall|k: Seq<char>|
                k != window_label@ && labelled(after, after.len() as int, k) implies labelled(
                before,
                before.len() as int,
                k,
            ) by {
                let w = choose|w: int| 0 <= w < after.len() && #[trigger] after[w].label@ == k;
                assert(w != at);
                assert(before[w].label@ == k);
            }
            assert(self@ =~= old(self)@.insert(window_label@, state));
        }
    }

/// The sidebar width of the window `window_label`: the remembered one, or
    /// the default where the window has no entry.
    pub fn get_width(&self, window_label: &str) -> (width: u64)
        ensures
            width == width_of(self@, window_label@),
    {
        let label: String = window_label.to_owned();
        match self.find(&label) {
            Some(i) => self.entries[i].state.width,
            None => DEFAULT_WIDTH,
        }
    }

    /// Sets the sidebar width of the window `window_label`, whether or not
    /// the window had an entry before. No other window's width changes.
    pub fn update_width(&mut self, window_label: &str, width: u64)
        ensures
            final(self)@ == old(self)@.insert(window_label@, SidebarState { width }),
    {
        self.set(window_label, SidebarState { width });
    }
}

/// After an update the window reads the width it was given, and every other
/// window reads what it read before.
pub proof fn lemma_update_is_read_back(
    widths: Map<Seq<char>, SidebarState>,
    window_label: Seq<char>,
    width: u64,
    other: Seq<char>,
)
    ensures
        width_of(widths.insert(window_label, SidebarState { width }), window_label) == width,
        other != window_label ==> width_of(
            widths.insert(window_label, SidebarState { width }),
            other,
        ) == width_of(widths, other),
{
}

/// The sidebar width of the window `window_label` according to `registry`.
pub fn get_sidebar_width(registry: &SidebarManager, window_label: &str) -> (width: u64)
    ensures
        width == width_of(registry@, window_label@),
{
    registry.get_width(window_label)
}

} // verus!
