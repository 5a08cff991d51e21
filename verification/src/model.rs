//! The tab record as mathematics.
//!
//! Everything the tab manager does is stated here first, over sequences and
//! plain values: what the record looks like after an operation, and what the
//! operation answers. The manager's functions are proved to do just that.

use crate::error::TabError;
use crate::geometry::{geometry, Placement};
use crate::ident::{probe, TabId};
use crate::layout::{width_of, SidebarState};
use crate::navigation::{navigation_result, TabNavigationView};
use crate::surface::{bound_surface, SurfaceActionView, SurfaceCommandView, WindowSnapshotView};
use crate::webview::opening_url;
use vstd::prelude::*;

verus! {

/// The mathematical content of a [`Tab`].
pub struct TabView {
    pub id: TabId,
    pub group_id: TabId,
    pub folder_id: Option<TabId>,
    pub url: Seq<char>,
    pub name: Seq<char>,
    pub favicon: Option<Seq<char>>,
    pub index: nat,
    pub is_pinned: bool,
    pub is_active: bool,
}

/// The tab that opening `url` under the name `name` adds at place `index`:
/// its own group, in no folder, without an icon, not pinned, not active.
pub open spec fn new_tab(id: TabId, url: Seq<char>, name: Seq<char>, index: nat) -> TabView {
    TabView {
        id,
        group_id: id,
        folder_id: None,
        url,
        name,
        favicon: None,
        index,
        is_pinned: false,
        is_active: false,
    }
}

/// A tab to be opened: the identifier it gets, its address and its name.
pub struct NewTab {
    pub id: TabId,
    pub url: Seq<char>,
    pub name: Seq<char>,
}

/// The tabs `tabs`, numbered anew from zero in the order they stand in.
pub open spec fn renumbered(tabs: Seq<TabView>) -> Seq<TabView> {
    Seq::new(tabs.len(), |i: int| TabView { index: i as nat, ..tabs[i] })
}

/// What tells the identifiers other than `target` from `target`.
pub open spec fn other_than(target: TabId) -> spec_fn(TabId) -> bool {
    |id: TabId| id != target
}

/// The command that has `target` do `action`.
pub open spec fn command(target: TabId, action: SurfaceActionView) -> SurfaceCommandView {
    SurfaceCommandView { target, action }
}

/// The commands of a resize pass: every active surface is put at `placement`.
pub open spec fn resize_commands(active: Seq<TabId>, placement: Placement) -> Seq<
    SurfaceCommandView,
> {
    active.map_values(|id: TabId| command(id, SurfaceActionView::Place { placement }))
}

/// The commands of a switch to `target`: the surfaces on show are hidden,
/// then the target's surface is shown and focused, and at last put at
/// `placement`.
pub open spec fn switch_commands(active: Seq<TabId>, target: TabId, placement: Placement) -> Seq<
    SurfaceCommandView,
> {
    active.map_values(|id: TabId| command(id, SurfaceActionView::Hide)) + seq![
        command(target, SurfaceActionView::Show),
        command(target, SurfaceActionView::Focus),
    ] + resize_commands(seq![target], placement)
}

/// Where the surfaces of `window` sit, given the sidebar widths `sidebars`
/// and the window's label.
pub open spec fn window_placement(
    window: WindowSnapshotView,
    sidebars: Map<Seq<char>, SidebarState>,
    window_label: Seq<char>,
) -> Placement {
    geometry(window.size, window.scale_milli, width_of(sidebars, window_label))
}

/// The mathematical content of a [`TabManager`]: the tabs in the order of
/// their index, and the identifiers of the active tabs.
pub struct TabManagerView {
    pub tabs: Seq<TabView>,
    pub active: Seq<TabId>,
}

impl TabManagerView {
    /// Whether there is a tab with the identifier `id`.
    pub open spec fn has_tab(self, id: TabId) -> bool {
        exists|i: int| 0 <= i < self.tabs.len() && #[trigger] self.tabs[i].id == id
    }

    /// The place of the tab with the identifier `id`.
    pub open spec fn position(self, id: TabId) -> int {
        choose|i: int| 0 <= i < self.tabs.len() && #[trigger] self.tabs[i].id == id
    }

    /// Whether the tab `id` is active.
    pub open spec fn is_active(self, id: TabId) -> bool {
        self.active.contains(id)
    }

    /// What holds of the record at all times.
    ///
    /// The tab at place `i` has index `i`. No two tabs share an identifier.
    /// At most one tab is active, the active tab is one of the tabs, and a
    /// tab's `is_active` says whether it is the active one.
    pub open spec fn wf(self) -> bool {
        &&& forall|i: int| 0 <= i < self.tabs.len() ==> (#[trigger] self.tabs[i]).index == i
        &&& forall|i: int, j: int|
            0 <= i < j < self.tabs.len() ==> (#[trigger] self.tabs[i]).id != (
            #[trigger] self.tabs[j]).id
        &&& self.active.len() <= 1
        &&& forall|k: int| 0 <= k < self.active.len() ==> self.has_tab(#[trigger] self.active[k])
        &&& forall|i: int|
            0 <= i < self.tabs.len() ==> ((#[trigger] self.tabs[i]).is_active
                <==> self.active.contains(self.tabs[i].id))
    }

    /// The record after a tab `id` was opened with `url` and `name`: the tab
    /// stands last, and what is active stays active.
    pub open spec fn created(self, id: TabId, url: Seq<char>, name: Seq<char>) -> TabManagerView {
        TabManagerView {
            tabs: self.tabs.push(new_tab(id, url, name, self.tabs.len())),
            active: self.active,
        }
    }

    /// The record after a switch to `target`: `target` alone is active.
    pub open spec fn switched(self, target: TabId) -> TabManagerView {
        TabManagerView {
            tabs: self.tabs.map_values(|t: TabView| TabView { is_active: t.id == target, ..t }),
            active: seq![target],
        }
    }

    /// The record after the tab `target` was closed: the tab is gone, the
    /// tabs left keep their order and are numbered anew, and `target` is no
    /// longer active. No other tab becomes active in its place.
    pub open spec fn closed(self, target: TabId) -> TabManagerView {
        TabManagerView {
            tabs: if self.has_tab(target) {
                renumbered(self.tabs.remove(self.position(target)))
            } else {
                self.tabs
            },
            active: self.active.filter(other_than(target)),
        }
    }

    /// Whether the identifiers `seed`, `seed + 1`, ... up to but without
    /// `seed + k` are all taken by tabs.
    pub open spec fn taken_upto(self, seed: TabId, k: int) -> bool {
        forall|j: int| 0 <= j < k ==> self.has_tab(#[trigger] probe(seed, j))
    }

    /// Whether `id` is the first identifier from `seed` on that no tab has.
    pub open spec fn first_free(self, seed: TabId, id: TabId) -> bool {
        exists|k: int|
            0 <= k <= self.tabs.len() && id == #[trigger] probe(seed, k) && !self.has_tab(id)
                && self.taken_upto(seed, k)
    }

    /// What opening a tab answers when the new tab gets the identifier `id`:
    /// `WindowNotFound` where the window is missing, else `id` and the
    /// command to make the tab's surface, hidden, showing `url`, where a
    /// surface of the window sits.
    pub open spec fn create_result(
        self,
        sidebars: Map<Seq<char>, SidebarState>,
        window_label: Seq<char>,
        window: Option<WindowSnapshotView>,
        id: TabId,
        url: Seq<char>,
    ) -> Result<(TabId, SurfaceCommandView), TabError> {
        match window {
            None => Err(TabError::WindowNotFound),
            Some(w) => Ok(
                (
                    id,
                    command(
                        id,
                        SurfaceActionView::Create {
                            url: opening_url(url),
                            placement: window_placement(w, sidebars, window_label),
                        },
                    ),
                ),
            ),
        }
    }

    /// The record after opening a tab under the identifier `id`: unchanged
    /// where the window is missing.
    pub open spec fn after_create(
        self,
        window: Option<WindowSnapshotView>,
        id: TabId,
        url: Seq<char>,
        name: Seq<char>,
    ) -> TabManagerView {
        match window {
            None => self,
            Some(_) => self.created(id, url, name),
        }
    }

    /// The commands of a resize pass: none where the window is missing, else
    /// one for each active tab, which puts its surface where a surface of
    /// the window sits.
    pub open spec fn resize_result(
        self,
        sidebars: Map<Seq<char>, SidebarState>,
        window_label: Seq<char>,
        window: Option<WindowSnapshotView>,
    ) -> Seq<SurfaceCommandView> {
        match window {
            None => Seq::empty(),
            Some(w) => resize_commands(self.active, window_placement(w, sidebars, window_label)),
        }
    }

    /// Why a switch to `target` fails, if it does.
    ///
    /// A switch to the active tab never fails. Any other fails with
    /// `WindowNotFound` where the window is missing, and with
    /// `WebviewNotFound` where `target` is not one of the tabs or the window
    /// holds no surface for it.
    pub open spec fn switch_failure(self, window: Option<WindowSnapshotView>, target: TabId) -> Option<
        TabError,
    > {
        if self.is_active(target) {
            None
        } else {
            match window {
                None => Some(TabError::WindowNotFound),
                Some(w) => if self.has_tab(target) && w.has_surface(target) {
                    None
                } else {
                    Some(TabError::WebviewNotFound)
                },
            }
        }
    }

    /// What a switch to `target` answers: the failure, or `target` and the
    /// commands for the host. There are no commands where `target` is active
    /// already.
    pub open spec fn switch_result(
        self,
        sidebars: Map<Seq<char>, SidebarState>,
        window_label: Seq<char>,
        window: Option<WindowSnapshotView>,
        target: TabId,
    ) -> Result<(TabId, Seq<SurfaceCommandView>), TabError> {
        if self.is_active(target) {
            Ok((target, Seq::empty()))
        } else {
            match window {
                None => Err(TabError::WindowNotFound),
                Some(w) => if self.has_tab(target) && w.has_surface(target) {
                    Ok(
                        (
                            target,
                            switch_commands(
                                self.active,
                                target,
                                window_placement(w, sidebars, window_label),
                            ),
                        ),
                    )
                } else {
                    Err(TabError::WebviewNotFound)
                },
            }
        }
    }

    /// The record after a switch to `target`: unchanged where the switch
    /// fails or `target` is active already.
    pub open spec fn after_switch(self, window: Option<WindowSnapshotView>, target: TabId) -> TabManagerView {
        if self.switch_failure(window, target) is None && !self.is_active(target) {
            self.switched(target)
        } else {
            self
        }
    }

    /// What closing the tab `target` answers: `WindowNotFound` where the
    /// window is missing, else the command to close the tab's surface.
    pub open spec fn close_result(self, window: Option<WindowSnapshotView>, target: TabId) -> Result<
        SurfaceCommandView,
        TabError,
    > {
        match window {
            None => Err(TabError::WindowNotFound),
            Some(_) => Ok(command(target, SurfaceActionView::Close)),
        }
    }

    /// The record after closing the tab `target`: unchanged where the window
    /// is missing.
    pub open spec fn after_close(self, window: Option<WindowSnapshotView>, target: TabId) -> TabManagerView {
        match window {
            None => self,
            Some(_) => self.closed(target),
        }
    }

    /// The record after opening the tabs `tabs` one after the other.
    pub open spec fn created_all(self, tabs: Seq<NewTab>) -> TabManagerView
        decreases tabs.len(),
    {
        if tabs.len() == 0 {
            self
        } else {
            self.created_all(tabs.drop_last()).created(
                tabs.last().id,
                tabs.last().url,
                tabs.last().name,
            )
        }
    }
}


/// The surfaces on show once the host has carried out `command`, where
/// `visible` were on show before: showing a surface puts it on show; hiding
/// or closing one takes it off; a surface is made hidden; nothing else
/// changes what is on show.
pub open spec fn visible_after_one(visible: Set<TabId>, command: SurfaceCommandView) -> Set<TabId> {
    match command.action {
        SurfaceActionView::Show => visible.insert(command.target),
        SurfaceActionView::Hide => visible.remove(command.target),
        SurfaceActionView::Close => visible.remove(command.target),
        SurfaceActionView::Create { .. } => visible.remove(command.target),
        _ => visible,
    }
}

/// The surfaces on show once the host has carried out `commands` one after
/// the other, where `visible` were on show before.
pub open spec fn visible_after(visible: Set<TabId>, commands: Seq<SurfaceCommandView>) -> Set<TabId>
    decreases commands.len(),
{
    if commands.len() == 0 {
        visible
    } else {
        visible_after(visible_after_one(visible, commands[0]), commands.skip(1))
    }
}

/// The empty record: no tabs, nothing active.
pub open spec fn empty_record() -> TabManagerView {
    TabManagerView { tabs: Seq::empty(), active: Seq::empty() }
}

/// What a navigation request for the tab `target` answers:
/// `WindowNotFound` where the window is missing, `WebviewNotFound` where the
/// window holds no surface for `target`, else what the request comes to on
/// that surface, given the address it shows or that it shows none that can
/// be read.
pub open spec fn navigate_result(
    window: Option<WindowSnapshotView>,
    target: TabId,
    request: TabNavigationView,
) -> Result<SurfaceCommandView, TabError> {
    match window {
        None => Err(TabError::WindowNotFound),
        Some(w) => match bound_surface(w.surfaces, target) {
            None => Err(TabError::WebviewNotFound),
            Some(surface) => match navigation_result(request, surface.url) {
                Ok(action) => Ok(command(target, action)),
                Err(failure) => Err(failure),
            },
        },
    }
}

/// The identifiers `seed`, `seed + 1`, ... up to but without `seed + k`.
pub open spec fn probes_upto(seed: TabId, k: int) -> Set<TabId> {
    Set::new(|id: TabId| exists|j: int| 0 <= j < k && id == probe(seed, j))
}

} // verus!
