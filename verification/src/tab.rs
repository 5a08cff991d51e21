//! The tabs of a window, and which of them is on show.
//!
//! The manager keeps the tabs in the order of their `index`, which counts
//! them from zero without gaps, and knows which tab is active: at most one.
//! Its operations change this record and say what the host has to do with
//! the surfaces; they never act on a surface themselves.

use crate::error::TabError;
use crate::geometry::compute_geometry;
use crate::ident::{lemma_probe_step, probe, TabId};
use crate::laws::{
    lemma_active_without, lemma_closed, lemma_created, lemma_position, lemma_probes_bounded,
    lemma_switched,
};
use crate::layout::SidebarManager;
use crate::model::{
    command, empty_record, navigate_result, renumbered, resize_commands, switch_commands,
    window_placement, TabManagerView, TabView,
};
use crate::navigation::{apply, TabNavigation};
use crate::surface::{
    command_result_view, commands_view, created_view, switched_view, window_view, SurfaceAction,
    SurfaceActionView, SurfaceCommand, SurfaceCommandView, WindowSnapshot,
};
use crate::webview::surface_url;
use vstd::prelude::*;

verus! {

/// One tab: a page the user keeps open, shown by one surface.
#[derive(Debug, PartialEq, Eq)]
pub struct Tab {
    /// The tab's identifier. As text it labels the tab's surface.
    pub id: TabId,
    /// The group the tab belongs to; a new tab is its own group.
    pub group_id: TabId,
    /// The folder the tab is filed under, if any.
    pub folder_id: Option<TabId>,
    /// The address the tab was opened with.
    pub url: String,
    /// The name shown for the tab.
    pub name: String,
    /// The address of the tab's icon, if it has one.
    pub favicon: Option<String>,
    /// The tab's place among the tabs of its window, counted from zero.
    pub index: usize,
    /// Whether the tab is pinned.
    pub is_pinned: bool,
    /// Whether the tab is the one on show.
    pub is_active: bool,
}

impl View for Tab {
    type V = TabView;

    open spec fn view(&self) -> TabView {
        TabView {
            id: self.id,
            group_id: self.group_id,
            folder_id: self.folder_id,
            url: self.url@,
            name: self.name@,
            favicon: match self.favicon {
                Some(icon) => Some(icon@),
                None => None,
            },
            index: self.index as nat,
            is_pinned: self.is_pinned,
            is_active: self.is_active,
        }
    }
}

impl Clone for Tab {
    fn clone(&self) -> (copy: Tab)
        ensures
            copy@ == self@,
    {
        Tab {
            id: self.id,
            group_id: self.group_id,
            folder_id: self.folder_id,
            url: self.url.clone(),
            name: self.name.clone(),
            favicon: match &self.favicon {
                Some(icon) => Some(icon.clone()),
                None => None,
            },
            index: self.index,
            is_pinned: self.is_pinned,
            is_active: self.is_active,
        }
    }
}

/// The tabs of a window and the record of which one is active.
pub struct TabManager {
    tabs: Vec<Tab>,
    active_tab_ids: Vec<TabId>,
}

impl View for TabManager {
    type V = TabManagerView;

    closed spec fn view(&self) -> TabManagerView {
        TabManagerView {
            tabs: self.tabs@.map_values(|t: Tab| t@),
            active: self.active_tab_ids@,
        }
    }
}

impl TabManager {
    /// A manager without tabs.
    pub fn new() -> (manager: TabManager)
        ensures
            manager@ == empty_record(),
            manager@.wf(),
    {
        let manager = TabManager { tabs: Vec::new(), active_tab_ids: Vec::new() };
        assert(manager@.tabs =~= empty_record().tabs);
        manager
    }

    /// Whether the record is as it should be. It always is for a manager
    /// that came from `new` and was changed by these operations only.
    pub fn is_consistent(&self) -> (consistent: bool)
        ensures
            consistent == self@.wf(),
    {
        if self.active_tab_ids.len() > 1 {
            return false;
        }
        let mut k: usize = 0;
        while k < self.active_tab_ids.len()
            invariant
                k <= self.active_tab_ids@.len(),
                forall|j: int| 0 <= j < k ==> self@.has_tab(#[trigger] self@.active[j]),
            decreases self.active_tab_ids@.len() - k,
        {
            if self.position(self.active_tab_ids[k]).is_none() {
                assert(!self@.has_tab(self@.active[k as int]));
                return false;
            }
            k += 1;
        }
        let mut i: usize = 0;
        while i < self.tabs.len()
            invariant
                i <= self.tabs@.len(),
                forall|a: int| 0 <= a < i ==> (#[trigger] self@.tabs[a]).index == a,
                forall|a: int, b: int|
                    0 <= a < b < self@.tabs.len() && a < i ==> (#[trigger] self@.tabs[a]).id != (
                    #[trigger] self@.tabs[b]).id,
                forall|a: int|
                    0 <= a < i ==> ((#[trigger] self@.tabs[a]).is_active <==> self@.active.contains(
                        self@.tabs[a].id,
                    )),
            decreases self.tabs@.len() - i,
        {
            if self.tabs[i].index != i {
                assert(self@.tabs[i as int].index != i);
                return false;
            }
            if self.tabs[i].is_active != self.is_active(self.tabs[i].id) {
                assert(self@.tabs[i as int].is_active != self@.active.contains(self@.tabs[i as int].id));
                return false;
            }
            let mut j: usize = i + 1;
            while j < self.tabs.len()
                invariant
                    i < j <= self.tabs@.len(),
                    forall|b: int| i < b < j ==> self@.tabs[i as int].id != (#[trigger] self@.tabs[b]).id,
                decreases self.tabs@.len() - j,
            {
                if self.tabs[i].id == self.tabs[j].id {
                    assert(self@.tabs[i as int].id == self@.tabs[j as int].id);
                    return false;
                }
                j += 1;
            }
            i += 1;
        }
        true
    }

    /// The tabs in the order of their index, as they are at this moment.
    pub fn get_tab_info_list(&self, window_label: String) -> (list: Vec<Tab>)
        ensures
            list@.map_values(|t: Tab| t@) == self@.tabs,
    {
        let mut list: Vec<Tab> = Vec::new();
        let mut i: usize = 0;
        while i < self.tabs.len()
            invariant
                i <= self.tabs@.len(),
                list@.len() == i,
                forall|j: int| 0 <= j < i ==> #[trigger] list@[j]@ == self.tabs@[j]@,
            decreases self.tabs@.len() - i,
        {
            list.push(self.tabs[i].clone());
            i += 1;
        }
        assert(list@.map_values(|t: Tab| t@) =~= self@.tabs);
        list
    }

    /// Where the tab `id` stands, if it is one of the tabs.
    pub fn position(&self, id: TabId) -> (place: Option<usize>)
        ensures
            place is Some <==> self@.has_tab(id),
            place matches Some(i) ==> i < self@.tabs.len() && self@.tabs[i as int].id == id,
            self@.wf() ==> (place matches Some(i) ==> i == self@.position(id)),
    {
        let mut i: usize = 0;
        while i < self.tabs.len()
            invariant
                i <= self.tabs@.len(),
                forall|j: int| 0 <= j < i ==> (#[trigger] self@.tabs[j]).id != id,
            decreases self.tabs@.len() - i,
        {
            if self.tabs[i].id == id {
                proof {
                    assert(self@.tabs[i as int].id == id);
                    if self@.wf() {
                        lemma_position(self@, i as int);
                    }
                }
                return Some(i);
            }
            i += 1;
        }
        None
    }

    /// Whether the tab `id` is the active one.
    pub fn is_active(&self, id: TabId) -> (active: bool)
        ensures
            active == self@.is_active(id),
    {
        let mut k: usize = 0;
        while k < self.active_tab_ids.len()
            invariant
                k <= self.active_tab_ids@.len(),
                forall|j: int| 0 <= j < k ==> self.active_tab_ids@[j] != id,
            decreases self.active_tab_ids@.len() - k,
        {
            if self.active_tab_ids[k] == id {
                return true;
            }
            k += 1;
        }
        false
    }

    /// The first identifier from `seed` on that no tab has. With `N` tabs
    /// one of the first `N + 1` candidates is free, so the search ends.
    pub fn fresh_id(&self, seed: TabId) -> (id: TabId)
        ensures
            self@.first_free(seed, id),
    {
        let count: usize = self.tabs.len();
        let mut candidate: TabId = seed;
        let mut k: usize = 0;
        proof {
            lemma_probe_step(seed, 0);
        }
        while k < count
            invariant
                count == self.tabs@.len(),
                k <= count,
                candidate == probe(seed, k as int),
                self@.taken_upto(seed, k as int),
            decreases count - k,
        {
            if self.position(candidate).is_none() {
                return candidate;
            }
            proof {
                lemma_probe_step(seed, k as int);
            }
            candidate = candidate.successor();
            k += 1;
        }
        proof {
            if self@.has_tab(candidate) {
                assert(self@.taken_upto(seed, count + 1));
                lemma_probes_bounded(self@, seed, count + 1);
            }
        }
        candidate
    }

    /// Opens a tab for `url` under the name `name`, with the first identifier
    /// from `seed` on that no tab has.
    ///
    /// Fails with `WindowNotFound`, and changes nothing, where the window is
    /// missing. Otherwise the new tab stands last and is not active, and the
    /// host is told to make its surface: hidden, showing `url`, where a
    /// surface of this window sits.
    pub fn create_tab_seeded(
        &mut self,
        sidebars: &SidebarManager,
        window_label: &str,
        window: Option<&WindowSnapshot>,
        seed: TabId,
        url: &str,
        name: &str,
    ) -> (result: Result<(TabId, SurfaceCommand), TabError>)
        requires
            old(self)@.wf(),
        ensures
            final(self)@.wf(),
            match created_view(result) {
                Ok((id, make)) => {
                    &&& old(self)@.first_free(seed, id)
                    &&& created_view(result) == old(self)@.create_result(
                        sidebars@,
                        window_label@,
                        window_view(window),
                        id,
                        url@,
                    )
                    &&& final(self)@ == old(self)@.after_create(
                        window_view(window),
                        id,
                        url@,
                        name@,
                    )
                },
                Err(e) => {
                    &&& window is None
                    &&& e == TabError::WindowNotFound
                    &&& final(self)@ == old(self)@
                },
            },
            window is Some ==> result is Ok,
    {
        let w = match window {
            None => {
                return Err(TabError::WindowNotFound);
            },
            Some(w) => w,
        };
        let id: TabId = self.fresh_id(seed);
        let sidebar_width: u64 = sidebars.get_width(window_label);
        let placement = compute_geometry(w.size, w.scale, sidebar_width);
        let make = SurfaceCommand {
            target: id,
            action: SurfaceAction::Create { url: surface_url(url), placement },
        };
        let tab = Tab {
            id,
            group_id: id,
            folder_id: None,
            url: url.to_owned(),
            name: name.to_owned(),
            favicon: None,
            index: self.tabs.len(),
            is_pinned: false,
            is_active: false,
        };
        self.tabs.push(tab);
        proof {
            assert(self@.tabs =~= old(self)@.created(id, url@, name@).tabs);
            lemma_created(old(self)@, id, url@, name@);
        }
        Ok((id, make))
    }

    /// Opens a tab for `url` under the name `name`, with a new identifier.
    ///
    /// Fails with `WindowNotFound`, and changes nothing, where the window is
    /// missing. Otherwise the new tab stands last and is not active, its
    /// identifier is one that no tab had, and the host is told to make its
    /// surface: hidden, showing `url`, where a surface of this window sits.
    pub fn create_tab(
        &mut self,
        sidebars: &SidebarManager,
        window_label: &str,
        window: Option<&WindowSnapshot>,
        url: &str,
        name: &str,
    ) -> (result: Result<(TabId, SurfaceCommand), TabError>)
        requires
            old(self)@.wf(),
        ensures
            final(self)@.wf(),
            match created_view(result) {
                Ok((id, make)) => {
                    &&& !old(self)@.has_tab(id)
                    &&& created_view(result) == old(self)@.create_result(
                        sidebars@,
                        window_label@,
                        window_view(window),
                        id,
                        url@,
                    )
                    &&& final(self)@ == old(self)@.after_create(
                        window_view(window),
                        id,
                        url@,
                        name@,
                    )
                },
                Err(e) => {
                    &&& window is None
                    &&& e == TabError::WindowNotFound
                    &&& final(self)@ == old(self)@
                },
            },
            window is Some ==> result is Ok,
    {
        if window.is_none() {
            return Err(TabError::WindowNotFound);
        }
        let seed: TabId = TabId::random();
        self.create_tab_seeded(sidebars, window_label, window, seed, url, name)
    }

    /// The commands that put every active surface where a surface of the
    /// window sits now. There are none where the window is missing.
    pub fn tab_resized(
        &self,
        sidebars: &SidebarManager,
        window_label: &str,
        window: Option<&WindowSnapshot>,
    ) -> (commands: Vec<SurfaceCommand>)
        ensures
            commands_view(commands@) == self@.resize_result(
                sidebars@,
                window_label@,
                window_view(window),
            ),
    {
        let mut commands: Vec<SurfaceCommand> = Vec::new();
        let w = match window {
            None => {
                assert(commands_view(commands@) =~= Seq::<SurfaceCommandView>::empty());
                return commands;
            },
            Some(w) => w,
        };
        let sidebar_width: u64 = sidebars.get_width(window_label);
        let placement = compute_geometry(w.size, w.scale, sidebar_width);
        let mut k: usize = 0;
        while k < self.active_tab_ids.len()
            invariant
                k <= self.active_tab_ids@.len(),
                commands@.len() == k,
                forall|j: int|
                    0 <= j < k ==> #[trigger] commands@[j]@ == command(
                        self.active_tab_ids@[j],
                        SurfaceActionView::Place { placement },
                    ),
            decreases self.active_tab_ids@.len() - k,
        {
            commands.push(
                SurfaceCommand {
                    target: self.active_tab_ids[k],
                    action: SurfaceAction::Place { placement },
                },
            );
            k += 1;
        }
        assert(commands_view(commands@) =~= resize_commands(self@.active, placement));
        commands
    }

    /// Makes `tab_id` the active tab.
    ///
    /// Where `tab_id` is active already, nothing changes and the host is told
    /// nothing. Otherwise the switch fails, and changes nothing, with
    /// `WindowNotFound` where the window is missing, and with
    /// `WebviewNotFound` where `tab_id` is not one of the tabs or the window
    /// holds no surface for it. Where it succeeds, `tab_id` alone is active,
    /// and the host is told to hide what was on show, to show and focus the
    /// surface of `tab_id`, and to put it where a surface of the window sits.
    pub fn switch_tab(
        &mut self,
        sidebars: &SidebarManager,
        window_label: &str,
        window: Option<&WindowSnapshot>,
        tab_id: TabId,
    ) -> (result: Result<(TabId, Vec<SurfaceCommand>), TabError>)
        requires
            old(self)@.wf(),
        ensures
            final(self)@.wf(),
            switched_view(result) == old(self)@.switch_result(
                sidebars@,
                window_label@,
                window_view(window),
                tab_id,
            ),
            final(self)@ == old(self)@.after_switch(window_view(window), tab_id),
    {
        if self.is_active(tab_id) {
            let nothing: Vec<SurfaceCommand> = Vec::new();
            assert(commands_view(nothing@) =~= Seq::<SurfaceCommandView>::empty());
            return Ok((tab_id, nothing));
        }
        let w = match window {
            None => {
                return Err(TabError::WindowNotFound);
            },
            Some(w) => w,
        };
        if self.position(tab_id).is_none() || !w.has_surface(tab_id) {
            return Err(TabError::WebviewNotFound);
        }
        let mut commands: Vec<SurfaceCommand> = Vec::new();
        let mut k: usize = 0;
        while k < self.active_tab_ids.len()
            invariant
                k <= self.active_tab_ids@.len(),
                commands@.len() == k,
                forall|j: int|
                    0 <= j < k ==> #[trigger] commands@[j]@ == command(
                        self.active_tab_ids@[j],
                        SurfaceActionView::Hide,
                    ),
            decreases self.active_tab_ids@.len() - k,
        {
            commands.push(
                SurfaceCommand { target: self.active_tab_ids[k], action: SurfaceAction::Hide },
            );
            k += 1;
        }
        let mut i: usize = 0;
        while i < self.tabs.len()
            invariant
                i <= self.tabs@.len(),
                self.tabs@.len() == old(self).tabs@.len(),
                self.active_tab_ids == old(self).active_tab_ids,
                forall|j: int|
                    0 <= j < i ==> #[trigger] self.tabs@[j]@ == (TabView {
                        is_active: old(self).tabs@[j].id == tab_id,
                        ..old(self).tabs@[j]@
                    }),
                forall|j: int| i <= j < self.tabs@.len() ==> #[trigger] self.tabs@[j] == old(self).tabs@[j],
            decreases self.tabs@.len() - i,
        {
            let on_show: bool = self.tabs[i].id == tab_id;
            self.tabs[i].is_active = on_show;
            i += 1;
        }
        self.active_tab_ids.clear();
        self.active_tab_ids.push(tab_id);
        commands.push(SurfaceCommand { target: tab_id, action: SurfaceAction::Show });
        commands.push(SurfaceCommand { target: tab_id, action: SurfaceAction::Focus });
        let mut placed: Vec<SurfaceCommand> = self.tab_resized(sidebars, window_label, window);
        let ghost placed_view = commands_view(placed@);
        commands.append(&mut placed);
        proof {
            let placement = window_placement(w@, sidebars@, window_label@);
            assert(self@.active =~= seq![tab_id]);
            assert(self@.tabs =~= old(self)@.switched(tab_id).tabs);
            lemma_switched(old(self)@, tab_id);
            assert(placed_view == resize_commands(seq![tab_id], placement));
            assert(commands_view(commands@) =~= switch_commands(
                old(self)@.active,
                tab_id,
                placement,
            ));
        }
        Ok((tab_id, commands))
    }

    /// Closes the tab `tab_id`.
    ///
    /// Fails with `WindowNotFound`, and changes nothing, where the window is
    /// missing. Otherwise the tab is taken out, the tabs left are numbered
    /// anew in their order, `tab_id` is no longer active, and the host is
    /// told to close the surface of `tab_id`. No other tab becomes active.
    pub fn close_tab(
        &mut self,
        window: Option<&WindowSnapshot>,
        tab_id: TabId,
    ) -> (result: Result<SurfaceCommand, TabError>)
        requires
            old(self)@.wf(),
        ensures
            final(self)@.wf(),
            command_result_view(result) == old(self)@.close_result(window_view(window), tab_id),
            final(self)@ == old(self)@.after_close(window_view(window), tab_id),
    {
        if window.is_none() {
            return Err(TabError::WindowNotFound);
        }
        proof {
            lemma_closed(old(self)@, tab_id);
            lemma_active_without(old(self)@.active, tab_id);
        }
        match self.position(tab_id) {
            Some(p) => {
                self.tabs.remove(p);
                let ghost cut = self.tabs@;
                let mut i: usize = p;
                while i < self.tabs.len()
                    invariant
                        p <= i <= self.tabs@.len(),
                        self.tabs@.len() == cut.len(),
                        self.active_tab_ids == old(self).active_tab_ids,
                        forall|j: int|
                            p <= j < i ==> #[trigger] self.tabs@[j]@ == (TabView {
                                index: j as nat,
                                ..cut[j]@
                            }),
                        forall|j: int|
                            0 <= j < self.tabs@.len() && !(p <= j < i) ==> #[trigger] self.tabs@[j]
                                == cut[j],
                    decreases self.tabs@.len() - i,
                {
                    self.tabs[i].index = i;
                    i += 1;
                }
                proof {
                    let before = old(self)@;
                    let removed = before.tabs.remove(p as int);
                    assert(cut.map_values(|t: Tab| t@) =~= removed);
                    assert forall|j: int| 0 <= j < p implies (#[trigger] removed[j]).index == j by {
                        assert(removed[j] == before.tabs[j]);
                    }
                    assert(self@.tabs =~= renumbered(removed));
                }
            },
            None => {},
        }
        if self.active_tab_ids.len() == 1 && self.active_tab_ids[0] == tab_id {
            proof {
                assert(old(self)@.active.contains(tab_id));
            }
            self.active_tab_ids.clear();
        } else {
            proof {
                if old(self)@.active.contains(tab_id) {
                    let x = choose|x: int|
                        0 <= x < old(self)@.active.len() && old(self)@.active[x] == tab_id;
                    assert(x == 0);
                }
            }
        }
        assert(self@.active =~= old(self)@.closed(tab_id).active);
        Ok(SurfaceCommand { target: tab_id, action: SurfaceAction::Close })
    }

    /// Says what the surface of `tab_id` is told to do for `request`.
    ///
    /// Fails with `WindowNotFound` where the window is missing, with
    /// `WebviewNotFound` where the window holds no surface for `tab_id`, with
    /// `UrlParseError` where the request names a malformed address, and with
    /// `SurfaceOperationFailed` where it names a well-formed one and the
    /// surface's address could not be read. Otherwise back, forward and
    /// reload are handed on, and going to an address reloads where the
    /// surface already shows it, and navigates otherwise.
    pub fn navigate(
        &self,
        window: Option<&WindowSnapshot>,
        tab_id: TabId,
        request: TabNavigation,
    ) -> (result: Result<SurfaceCommand, TabError>)
        ensures
            command_result_view(result) == navigate_result(window_view(window), tab_id, request@),
    {
        let w = match window {
            None => {
                return Err(TabError::WindowNotFound);
            },
            Some(w) => w,
        };
        let at = match w.find_surface(tab_id) {
            None => {
                return Err(TabError::WebviewNotFound);
            },
            Some(at) => at,
        };
        match apply(request, &w.surfaces[at].url) {
            Ok(action) => Ok(SurfaceCommand { target: tab_id, action }),
            Err(failure) => Err(failure),
        }
    }
}

} // verus!
