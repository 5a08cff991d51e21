//! What holds of the tab record whatever is done with it.
//!
//! First come the facts the manager's own proofs lean on. Then the laws of
//! the record: its indexes count from zero, and opening, switching and
//! closing keep it well-formed. Then the laws of the operations, and at last
//! what follows for a host that does as it is told: it shows the surface of
//! the active tab and no other.

use crate::error::TabError;
use crate::geometry::geometry;
use crate::ident::{probe, TabId};
use crate::layout::SidebarState;
use crate::model::{
    command, empty_record, navigate_result, other_than, probes_upto, resize_commands,
    switch_commands, visible_after, window_placement, NewTab, TabManagerView, TabView,
};
use crate::navigation::{url_serialization, TabNavigationView};
use crate::surface::{bound_surface, SurfaceActionView, SurfaceCommandView, WindowSnapshotView};
use crate::webview::opening_url;
use vstd::prelude::*;

verus! {

/// Under the invariant a tab's place is told by its identifier.
pub proof fn lemma_position(v: TabManagerView, i: int)
    requires
        v.wf(),
        0 <= i < v.tabs.len(),
    ensures
        v.has_tab(v.tabs[i].id),
        v.position(v.tabs[i].id) == i,
{
    let id = v.tabs[i].id;
    let p = v.position(id);
    assert(0 <= p < v.tabs.len() && v.tabs[p].id == id);
    if p < i {
        assert(v.tabs[p].id != v.tabs[i].id);
    }
    if i < p {
        assert(v.tabs[i].id != v.tabs[p].id);
    }
}

/// With at most one tab active, taking `target` out of the active tabs
/// leaves nothing where `target` was active, and everything where it was not.
pub proof fn lemma_active_without(active: Seq<TabId>, target: TabId)
    requires
        active.len() <= 1,
    ensures
        active.filter(other_than(target)) == if active.contains(target) {
            Seq::<TabId>::empty()
        } else {
            active
        },
{
    let keep = other_than(target);
    reveal_with_fuel(Seq::filter, 3);
    if active.len() == 0 {
        assert(active.filter(keep) =~= active);
    } else {
        assert(active.drop_last().len() == 0);
        assert(active.last() == active[0]);
        if active[0] == target {
            assert(active.contains(target));
            assert(active.filter(keep) =~= Seq::<TabId>::empty());
        } else {
            if active.contains(target) {
                let w = choose|w: int| 0 <= w < active.len() && active[w] == target;
                assert(w == 0);
            }
            assert(active.filter(keep) =~= active);
        }
    }
}

/// There are `k` identifiers among `seed`, `seed + 1`, ... up to but without
/// `seed + k`.
pub proof fn lemma_probes_counted(seed: TabId, k: int)
    requires
        0 <= k <= usize::MAX + 1,
    ensures
        probes_upto(seed, k).finite(),
        probes_upto(seed, k).len() == k,
    decreases k,
{
    if k == 0 {
        assert(probes_upto(seed, k) =~= Set::<TabId>::empty());
    } else {
        lemma_probes_counted(seed, k - 1);
        let fewer = probes_upto(seed, k - 1);
        let last = probe(seed, k - 1);
        if fewer.contains(last) {
            let j = choose|j: int| 0 <= j < k - 1 && last == probe(seed, j);
            assert(probe(seed, j).value == probe(seed, k - 1).value);
            assert(false);
        }
        assert(probes_upto(seed, k) =~= fewer.insert(last)) by {
            assert forall|id: TabId| probes_upto(seed, k).contains(id) implies fewer.insert(
                last,
            ).contains(id) by {
                let j = choose|j: int| 0 <= j < k && id == probe(seed, j);
                if j < k - 1 {
                    assert(fewer.contains(id));
                }
            }
            assert forall|id: TabId| fewer.insert(last).contains(id) implies probes_upto(
                seed,
                k,
            ).contains(id) by {
                if id == last {
                    assert(0 <= k - 1 < k && id == probe(seed, k - 1));
                } else {
                    let j = choose|j: int| 0 <= j < k - 1 && id == probe(seed, j);
                    assert(0 <= j < k && id == probe(seed, j));
                }
            }
        }
    }
}

/// Identifiers counted on from `seed` are all different as long as fewer of
/// them are counted than there are identifiers at all; so no more of them
/// can be taken by tabs than there are tabs.
pub proof fn lemma_probes_bounded(v: TabManagerView, seed: TabId, k: int)
    requires
        0 <= k <= usize::MAX + 1,
        v.taken_upto(seed, k),
    ensures
        k <= v.tabs.len(),
{
    let ids = v.tabs.map_values(|t: TabView| t.id);
    let taken = ids.to_set();
    ids.lemma_cardinality_of_set();
    lemma_probes_counted(seed, k);
    let probes = probes_upto(seed, k);
    assert forall|id: TabId| probes.contains(id) implies taken.contains(id) by {
        let j = choose|j: int| 0 <= j < k && id == probe(seed, j);
        assert(v.has_tab(probe(seed, j)));
        let w = choose|w: int| 0 <= w < v.tabs.len() && #[trigger] v.tabs[w].id == id;
        assert(ids[w] == id);
    }
    vstd::set_lib::lemma_len_subset(probes, taken);
}

/// The indexes of the tabs, read in the order of the tabs, count from zero
/// upwards: each of `0`, ..., `N - 1` is the index of one tab, the one at
/// that place.
pub proof fn lemma_indices_dense(v: TabManagerView)
    requires
        v.wf(),
    ensures
        v.tabs.map_values(|t: TabView| t.index) == Seq::new(v.tabs.len(), |i: int| i as nat),
        forall|i: int, j: int|
            0 <= i < v.tabs.len() && 0 <= j < v.tabs.len() && i != j ==> (#[trigger] v.tabs[i]).index
                != (#[trigger] v.tabs[j]).index,
{
    assert(v.tabs.map_values(|t: TabView| t.index) =~= Seq::new(v.tabs.len(), |i: int| i as nat));
}

/// Opening a tab under an identifier that no tab has keeps the invariant,
/// and the new tab's index is the number of tabs there were.
pub proof fn lemma_created(v: TabManagerView, id: TabId, url: Seq<char>, name: Seq<char>)
    requires
        v.wf(),
        !v.has_tab(id),
    ensures
        v.created(id, url, name).wf(),
        v.created(id, url, name).tabs.len() == v.tabs.len() + 1,
        v.created(id, url, name).tabs.last().index == v.tabs.len(),
        v.created(id, url, name).has_tab(id),
{
    let next = v.created(id, url, name);
    let n = v.tabs.len() as int;
    assert(next.tabs[n].id == id);
    assert forall|i: int| 0 <= i < n implies #[trigger] next.tabs[i] == v.tabs[i] by {}
    assert forall|k: int| 0 <= k < next.active.len() implies next.has_tab(
        #[trigger] next.active[k],
    ) by {
        let a = v.active[k];
        assert(v.has_tab(a));
        let w = choose|w: int| 0 <= w < v.tabs.len() && #[trigger] v.tabs[w].id == a;
        assert(next.tabs[w].id == a);
    }
    assert forall|i: int| 0 <= i < next.tabs.len() implies ((#[trigger] next.tabs[i]).is_active
        <==> next.active.contains(next.tabs[i].id)) by {
        if i == n {
            if v.active.contains(id) {
                let k = choose|k: int| 0 <= k < v.active.len() && v.active[k] == id;
                assert(v.has_tab(v.active[k]));
            }
        }
    }
}

/// Opening tabs one after the other, under identifiers that differ from one
/// another and from those in use, keeps the invariant: the new tabs stand
/// behind the old ones in the order they were opened in, and each has its
/// place as its index.
pub proof fn lemma_created_all(v: TabManagerView, tabs: Seq<NewTab>)
    requires
        v.wf(),
        forall|i: int| 0 <= i < tabs.len() ==> !v.has_tab(#[trigger] tabs[i].id),
        forall|i: int, j: int| 0 <= i < j < tabs.len() ==> (#[trigger] tabs[i]).id != (#[trigger] tabs[j]).id,
    ensures
        v.created_all(tabs).wf(),
        v.created_all(tabs).active == v.active,
        v.created_all(tabs).tabs.len() == v.tabs.len() + tabs.len(),
        forall|i: int| 0 <= i < v.tabs.len() ==> #[trigger] v.created_all(tabs).tabs[i] == v.tabs[i],
        forall|i: int|
            0 <= i < tabs.len() ==> (#[trigger] v.created_all(tabs).tabs[v.tabs.len() + i]).id == tabs[i].id
                && v.created_all(tabs).tabs[v.tabs.len() + i].index == v.tabs.len() + i,
    decreases tabs.len(),
{
    if tabs.len() > 0 {
        let before = tabs.drop_last();
        let last = tabs.last();
        assert forall|i: int| 0 <= i < before.len() implies !v.has_tab(#[trigger] before[i].id) by {
            assert(before[i] == tabs[i]);
        }
        assert forall|i: int, j: int| 0 <= i < j < before.len() implies (#[trigger] before[i]).id != (
        #[trigger] before[j]).id by {
            assert(before[i] == tabs[i]);
            assert(before[j] == tabs[j]);
        }
        lemma_created_all(v, before);
        let mid = v.created_all(before);
        assert(!mid.has_tab(last.id)) by {
            if mid.has_tab(last.id) {
                let w = choose|w: int| 0 <= w < mid.tabs.len() && #[trigger] mid.tabs[w].id == last.id;
                if w < v.tabs.len() {
                    assert(mid.tabs[w] == v.tabs[w]);
                    assert(v.tabs[w].id == last.id);
                    assert(v.has_tab(tabs[tabs.len() - 1].id));
                } else {
                    let i = w - v.tabs.len();
                    assert(mid.tabs[v.tabs.len() + i].id == before[i].id);
                    assert(before[i] == tabs[i]);
                    assert(tabs[i].id != tabs[tabs.len() - 1].id);
                }
            }
        }
        lemma_created(mid, last.id, last.url, last.name);
        let end = v.created_all(tabs);
        assert(end == mid.created(last.id, last.url, last.name));
        assert forall|i: int| 0 <= i < v.tabs.len() implies #[trigger] end.tabs[i] == v.tabs[i] by {
            assert(end.tabs[i] == mid.tabs[i]);
        }
        assert forall|i: int| 0 <= i < tabs.len() implies (#[trigger] end.tabs[v.tabs.len() + i]).id
            == tabs[i].id && end.tabs[v.tabs.len() + i].index == v.tabs.len() + i by {
            if i < before.len() {
                assert(end.tabs[v.tabs.len() + i] == mid.tabs[v.tabs.len() + i]);
                assert(before[i] == tabs[i]);
            }
        }
    }
}

/// Opening `N` tabs in a window that had none gives them the indexes `0`,
/// ..., `N - 1` in the order they were opened in: each index once.
pub proof fn lemma_first_tabs(tabs: Seq<NewTab>)
    requires
        forall|i: int, j: int| 0 <= i < j < tabs.len() ==> (#[trigger] tabs[i]).id != (#[trigger] tabs[j]).id,
    ensures
        empty_record().wf(),
        empty_record().created_all(tabs).wf(),
        empty_record().created_all(tabs).tabs.len() == tabs.len(),
        empty_record().created_all(tabs).tabs.map_values(|t: TabView| t.index) == Seq::new(
            tabs.len(),
            |i: int| i as nat,
        ),
        forall|i: int|
            0 <= i < tabs.len() ==> (#[trigger] empty_record().created_all(tabs).tabs[i]).id
                == tabs[i].id,
{
    let v = empty_record();
    lemma_created_all(v, tabs);
    lemma_indices_dense(v.created_all(tabs));
    assert forall|i: int| 0 <= i < tabs.len() implies (#[trigger] v.created_all(tabs).tabs[i]).id
        == tabs[i].id by {
        assert(v.created_all(tabs).tabs[v.tabs.len() + i].id == tabs[i].id);
    }
}

/// Switching to one of the tabs keeps the invariant and leaves that tab, and
/// no other, active.
pub proof fn lemma_switched(v: TabManagerView, target: TabId)
    requires
        v.wf(),
        v.has_tab(target),
    ensures
        v.switched(target).wf(),
        v.switched(target).active == seq![target],
        v.switched(target).tabs.len() == v.tabs.len(),
        forall|i: int|
            0 <= i < v.tabs.len() ==> ((#[trigger] v.switched(target).tabs[i]).is_active <==> v.tabs[i].id
                == target),
{
    let next = v.switched(target);
    assert(next.active[0] == target);
    assert forall|k: int| 0 <= k < next.active.len() implies next.has_tab(
        #[trigger] next.active[k],
    ) by {
        let w = choose|w: int| 0 <= w < v.tabs.len() && #[trigger] v.tabs[w].id == target;
        assert(next.tabs[w].id == target);
    }
    assert forall|i: int| 0 <= i < next.tabs.len() implies ((#[trigger] next.tabs[i]).is_active
        <==> next.active.contains(next.tabs[i].id)) by {
        if next.tabs[i].id == target {
            assert(next.active[0] == next.tabs[i].id);
        }
    }
    assert forall|i: int, j: int| 0 <= i < j < next.tabs.len() implies (#[trigger] next.tabs[i]).id != (
    #[trigger] next.tabs[j]).id by {
        assert(v.tabs[i].id != v.tabs[j].id);
    }
}

/// Switching to the tab that is active already changes nothing.
pub proof fn lemma_switch_to_active(v: TabManagerView, target: TabId)
    requires
        v.wf(),
        v.is_active(target),
    ensures
        v.switched(target) == v,
{
    let next = v.switched(target);
    let k = choose|k: int| 0 <= k < v.active.len() && v.active[k] == target;
    assert(k == 0);
    assert(v.active =~= seq![target]);
    assert forall|i: int| 0 <= i < v.tabs.len() implies #[trigger] next.tabs[i] == v.tabs[i] by {
        if v.tabs[i].id == target {
            assert(v.active.contains(v.tabs[i].id));
        } else {
            if v.active.contains(v.tabs[i].id) {
                let w = choose|w: int| 0 <= w < v.active.len() && v.active[w] == v.tabs[i].id;
                assert(w == 0);
            }
        }
    }
    assert(next.tabs =~= v.tabs);
}

/// Closing a tab keeps the invariant. Where the tab was there, one tab fewer
/// is left, and the tabs left stand in the order they stood in before.
pub proof fn lemma_closed(v: TabManagerView, target: TabId)
    requires
        v.wf(),
    ensures
        v.closed(target).wf(),
        !v.closed(target).has_tab(target),
        !v.closed(target).is_active(target),
        v.has_tab(target) ==> v.closed(target).tabs.len() == v.tabs.len() - 1,
        !v.has_tab(target) ==> v.closed(target) == v,
        forall|i: int|
            0 <= i < v.closed(target).tabs.len() ==> (#[trigger] v.closed(target).tabs[i]).id == (
            if v.has_tab(target) && i >= v.position(target) {
                v.tabs[i + 1].id
            } else {
                v.tabs[i].id
            }),
{
    let next = v.closed(target);
    lemma_active_without(v.active, target);
    if v.has_tab(target) {
        let p = v.position(target);
        assert(0 <= p < v.tabs.len() && v.tabs[p].id == target);
        let cut = v.tabs.remove(p);
        assert(next.tabs.len() == v.tabs.len() - 1);
        assert forall|i: int| 0 <= i < next.tabs.len() implies (#[trigger] next.tabs[i]).id == (if i
            >= p {
            v.tabs[i + 1].id
        } else {
            v.tabs[i].id
        }) && next.tabs[i].is_active == (if i >= p {
            v.tabs[i + 1].is_active
        } else {
            v.tabs[i].is_active
        }) && next.tabs[i].id != target by {
            if i >= p {
                assert(cut[i] == v.tabs[i + 1]);
                assert(v.tabs[p].id != v.tabs[i + 1].id);
            } else {
                assert(cut[i] == v.tabs[i]);
                assert(v.tabs[i].id != v.tabs[p].id);
            }
        }
        assert forall|i: int, j: int| 0 <= i < j < next.tabs.len() implies (#[trigger] next.tabs[i]).id
            != (#[trigger] next.tabs[j]).id by {
            let a = if i >= p {
                i + 1
            } else {
                i
            };
            let b = if j >= p {
                j + 1
            } else {
                j
            };
            assert(v.tabs[a].id != v.tabs[b].id);
        }
        assert forall|k: int| 0 <= k < next.active.len() implies next.has_tab(
            #[trigger] next.active[k],
        ) by {
            let a = next.active[k];
            assert(v.active[k] == a);
            assert(a != target) by {
                if a == target {
                    assert(v.active.contains(target));
                }
            }
            assert(v.has_tab(v.active[k]));
            let w = choose|w: int| 0 <= w < v.tabs.len() && #[trigger] v.tabs[w].id == a;
            if w > p {
                assert(next.tabs[w - 1].id == a);
            } else {
                assert(next.tabs[w].id == a);
            }
        }
        assert forall|i: int| 0 <= i < next.tabs.len() implies ((#[trigger] next.tabs[i]).is_active
            <==> next.active.contains(next.tabs[i].id)) by {
            let a = if i >= p {
                i + 1
            } else {
                i
            };
            assert(v.tabs[a].is_active <==> v.active.contains(v.tabs[a].id));
            assert(next.tabs[i].id == v.tabs[a].id);
            if v.active.contains(target) {
                if v.active.contains(v.tabs[a].id) {
                    let x = choose|x: int| 0 <= x < v.active.len() && v.active[x] == target;
                    let y = choose|y: int| 0 <= y < v.active.len() && v.active[y] == v.tabs[a].id;
                    assert(x == 0 && y == 0);
                }
            }
        }
        if next.has_tab(target) {
            let w = choose|w: int| 0 <= w < next.tabs.len() && #[trigger] next.tabs[w].id == target;
            assert(next.tabs[w].id != target);
        }
    } else {
        if v.active.contains(target) {
            let k = choose|k: int| 0 <= k < v.active.len() && v.active[k] == target;
            assert(v.has_tab(v.active[k]));
        }
        assert(next.active == v.active);
    }
    if next.active.contains(target) {
        let k = choose|k: int| 0 <= k < next.active.len() && next.active[k] == target;
        assert(v.active[k] == target);
    }
}

/// A switch to the tab that is active already succeeds, tells the host
/// nothing, and leaves the record as it is.
pub proof fn lemma_switch_to_active_is_idle(
    v: TabManagerView,
    sidebars: Map<Seq<char>, SidebarState>,
    window_label: Seq<char>,
    window: Option<WindowSnapshotView>,
    target: TabId,
)
    requires
        v.wf(),
        v.is_active(target),
    ensures
        v.switch_result(sidebars, window_label, window, target) == Ok::<
            (TabId, Seq<SurfaceCommandView>),
            TabError,
        >((target, Seq::empty())),
        v.after_switch(window, target) == v,
        v.switched(target) == v,
{
    lemma_switch_to_active(v, target);
}

/// After a switch to `a` and then a switch to `b`, both of which succeed,
/// `b` is active and `a` is not, and no more than one tab is active. The
/// windows the two switches see may differ.
pub proof fn lemma_switch_then_switch(
    v: TabManagerView,
    first_window: Option<WindowSnapshotView>,
    second_window: Option<WindowSnapshotView>,
    a: TabId,
    b: TabId,
)
    requires
        v.wf(),
        a != b,
        v.switch_failure(first_window, a) is None,
        v.after_switch(first_window, a).switch_failure(second_window, b) is None,
    ensures
        v.after_switch(first_window, a).after_switch(second_window, b).wf(),
        v.after_switch(first_window, a).after_switch(second_window, b).active == seq![b],
        v.after_switch(first_window, a).after_switch(second_window, b).is_active(b),
        !v.after_switch(first_window, a).after_switch(second_window, b).is_active(a),
        v.after_switch(first_window, a).after_switch(second_window, b).active.len() <= 1,
        forall|i: int|
            0 <= i < v.tabs.len() ==> ((#[trigger] v.after_switch(first_window, a).after_switch(
                second_window,
                b,
            ).tabs[i]).is_active <==> v.tabs[i].id == b),
{
    let first = v.after_switch(first_window, a);
    if v.is_active(a) {
        lemma_switch_to_active(v, a);
    } else {
        lemma_switched(v, a);
    }
    assert(first == v.switched(a));
    assert(first.active == seq![a]);
    assert(first.active[0] == a);
    assert(!first.is_active(b)) by {
        if first.active.contains(b) {
            let k = choose|k: int| 0 <= k < first.active.len() && first.active[k] == b;
            assert(k == 0);
        }
    }
    lemma_switched(first, b);
    let second = first.after_switch(second_window, b);
    assert(second == first.switched(b));
    assert(second.active[0] == b);
    if second.active.contains(a) {
        let k = choose|k: int| 0 <= k < second.active.len() && second.active[k] == a;
        assert(k == 0);
    }
}

/// A resize pass that follows an update of the window's sidebar width puts
/// the active surface beside a sidebar of the width given, whatever the
/// registry held before.
pub proof fn lemma_resize_after_update(
    v: TabManagerView,
    sidebars: Map<Seq<char>, SidebarState>,
    window_label: Seq<char>,
    window: WindowSnapshotView,
    width: u64,
)
    ensures
        v.resize_result(
            sidebars.insert(window_label, SidebarState { width }),
            window_label,
            Some(window),
        ) == resize_commands(v.active, geometry(window.size, window.scale_milli, width)),
{
}

/// Going to the address that the tab's surface already shows, in whatever
/// spelling, is answered with a reload of that surface.
pub proof fn lemma_navigate_to_current_reloads(
    window: WindowSnapshotView,
    target: TabId,
    url: Seq<char>,
)
    requires
        bound_surface(window.surfaces, target) matches Some(surface) && surface.url is Some
            && url_serialization(url) == surface.url,
    ensures
        navigate_result(Some(window), target, TabNavigationView::NavigateTo(url)) == Ok::<
            SurfaceCommandView,
            TabError,
        >(command(target, SurfaceActionView::Reload)),
{
}

/// Going to a well-formed address in a tab whose surface does not tell what
/// it shows fails with `SurfaceOperationFailed`.
pub proof fn lemma_navigate_fails_on_unreadable_address(
    window: WindowSnapshotView,
    target: TabId,
    url: Seq<char>,
)
    requires
        bound_surface(window.surfaces, target) matches Some(surface) && surface.url is None,
        url_serialization(url) is Some,
    ensures
        navigate_result(Some(window), target, TabNavigationView::NavigateTo(url)) == Err::<
            SurfaceCommandView,
            TabError,
        >(TabError::SurfaceOperationFailed),
{
}

/// A host that shows just the active tab's surface, and does what a switch
/// tells it, shows just the active tab's surface afterwards. So at most one
/// surface is ever on show, and it is that of the active tab.
pub proof fn lemma_switch_shows_the_active_tab(
    v: TabManagerView,
    sidebars: Map<Seq<char>, SidebarState>,
    window_label: Seq<char>,
    window: Option<WindowSnapshotView>,
    target: TabId,
    visible: Set<TabId>,
)
    requires
        v.wf(),
        visible == v.active.to_set(),
        v.switch_failure(window, target) is None,
    ensures
        v.switch_result(sidebars, window_label, window, target) matches Ok((_, commands))
            && visible_after(visible, commands) == v.after_switch(window, target).active.to_set()
            && visible_after(visible, commands) == set![target],
{
    let after = v.after_switch(window, target);
    if v.is_active(target) {
        let k = choose|k: int| 0 <= k < v.active.len() && v.active[k] == target;
        assert(k == 0);
        assert(v.active =~= seq![target]);
        assert(seq![target].to_set() =~= set![target]) by {
            assert(seq![target][0] == target);
        }
    } else {
        lemma_switched(v, target);
        let w = window->Some_0;
        let placement = window_placement(w, sidebars, window_label);
        let commands = switch_commands(v.active, target, placement);
        let hide = v.active.map_values(|id: TabId| command(id, SurfaceActionView::Hide));
        let show = command(target, SurfaceActionView::Show);
        let focus = command(target, SurfaceActionView::Focus);
        let place = command(target, SurfaceActionView::Place { placement });
        assert(resize_commands(seq![target], placement) =~= seq![place]);
        assert(after.active.to_set() =~= set![target]) by {
            assert(after.active[0] == target);
        }
        reveal_with_fuel(visible_after, 5);
        if v.active.len() == 0 {
            assert(commands =~= seq![show, focus, place]);
            assert(visible =~= Set::<TabId>::empty());
            let c1 = commands.skip(1);
            assert(c1 =~= seq![focus, place]);
            let c2 = c1.skip(1);
            assert(c2 =~= seq![place]);
            assert(c2.skip(1).len() == 0);
            assert(visible_after(visible, commands) =~= set![target]);
        } else {
            let a = v.active[0];
            assert(hide =~= seq![command(a, SurfaceActionView::Hide)]);
            assert(commands =~= seq![command(a, SurfaceActionView::Hide), show, focus, place]);
            assert(visible =~= set![a]) by {
                assert(v.active =~= seq![a]);
                assert(seq![a][0] == a);
            }
            let c1 = commands.skip(1);
            assert(c1 =~= seq![show, focus, place]);
            let c2 = c1.skip(1);
            assert(c2 =~= seq![focus, place]);
            let c3 = c2.skip(1);
            assert(c3 =~= seq![place]);
            assert(c3.skip(1).len() == 0);
            assert(visible.remove(a) =~= Set::<TabId>::empty());
            assert(visible_after(visible, commands) =~= set![target]);
        }
    }
}

/// A host that shows just the active tab's surface, and does what closing a
/// tab tells it, shows just the active tab's surface afterwards: none where
/// the closed tab was the active one.
pub proof fn lemma_close_hides_the_closed_tab(
    v: TabManagerView,
    window: WindowSnapshotView,
    target: TabId,
    visible: Set<TabId>,
)
    requires
        v.wf(),
        visible == v.active.to_set(),
    ensures
        v.close_result(Some(window), target) matches Ok(close) && visible_after(visible, seq![close])
            == v.after_close(Some(window), target).active.to_set(),
{
    let close = command(target, SurfaceActionView::Close);
    let after = v.after_close(Some(window), target);
    lemma_active_without(v.active, target);
    reveal_with_fuel(visible_after, 2);
    assert(seq![close].skip(1).len() == 0);
    assert(seq![close][0] == close);
    if v.active.contains(target) {
        let k = choose|k: int| 0 <= k < v.active.len() && v.active[k] == target;
        assert(k == 0);
        assert(v.active =~= seq![target]);
        assert(visible =~= set![target]) by {
            assert(seq![target][0] == target);
        }
        assert(visible.remove(target) =~= Set::<TabId>::empty());
        assert(after.active.to_set() =~= Set::<TabId>::empty());
    } else {
        assert(!visible.contains(target));
        assert(visible.remove(target) =~= visible);
    }
}

/// Opening a tab and laying the window out anew leave on show what was on
/// show: the new surface is made hidden, and placing moves surfaces only.
pub proof fn lemma_create_and_resize_show_nothing_new(
    v: TabManagerView,
    sidebars: Map<Seq<char>, SidebarState>,
    window_label: Seq<char>,
    window: WindowSnapshotView,
    id: TabId,
    url: Seq<char>,
    visible: Set<TabId>,
)
    requires
        v.wf(),
        !v.has_tab(id),
        visible == v.active.to_set(),
    ensures
        v.create_result(sidebars, window_label, Some(window), id, url) matches Ok((_, make))
            && visible_after(visible, seq![make]) == visible,
        visible_after(visible, v.resize_result(sidebars, window_label, Some(window))) == visible,
{
    let placement = window_placement(window, sidebars, window_label);
    let make = command(id, SurfaceActionView::Create { url: opening_url(url), placement });
    reveal_with_fuel(visible_after, 3);
    assert(seq![make].skip(1).len() == 0);
    assert(seq![make][0] == make);
    assert(!visible.contains(id)) by {
        if v.active.contains(id) {
            let k = choose|k: int| 0 <= k < v.active.len() && v.active[k] == id;
            assert(v.has_tab(v.active[k]));
        }
    }
    assert(visible.remove(id) =~= visible);
    let placed = v.resize_result(sidebars, window_label, Some(window));
    if v.active.len() == 1 {
        assert(placed.skip(1).len() == 0);
        assert(placed[0].action is Place);
    }
}

/// The commands of a switch and of a resize pass are meant for surfaces of
/// tabs on record only: a switch names the tab that was active and the tab
/// it switches to, a resize pass names the active tab.
pub proof fn lemma_commands_name_tabs(
    v: TabManagerView,
    sidebars: Map<Seq<char>, SidebarState>,
    window_label: Seq<char>,
    window: Option<WindowSnapshotView>,
    target: TabId,
)
    requires
        v.wf(),
        v.switch_failure(window, target) is None,
    ensures
        v.switch_result(sidebars, window_label, window, target) matches Ok((_, commands))
            && forall|i: int|
            0 <= i < commands.len() ==> v.has_tab((#[trigger] commands[i]).target) && (
            commands[i].target == target || v.is_active(commands[i].target)),
        forall|i: int|
            0 <= i < v.resize_result(sidebars, window_label, window).len() ==> v.is_active(
                (#[trigger] v.resize_result(sidebars, window_label, window)[i]).target,
            ) && v.has_tab(v.resize_result(sidebars, window_label, window)[i].target),
{
    let placed = v.resize_result(sidebars, window_label, window);
    assert forall|i: int| 0 <= i < placed.len() implies v.is_active((#[trigger] placed[i]).target)
        && v.has_tab(placed[i].target) by {
        assert(placed[i].target == v.active[i]);
        assert(v.has_tab(v.active[i]));
    }
    if !v.is_active(target) {
        let w = window->Some_0;
        let placement = window_placement(w, sidebars, window_label);
        let commands = switch_commands(v.active, target, placement);
        assert forall|i: int| 0 <= i < commands.len() implies v.has_tab(
            (#[trigger] commands[i]).target,
        ) && (commands[i].target == target || v.is_active(commands[i].target)) by {
            if i < v.active.len() {
                assert(commands[i].target == v.active[i]);
                assert(v.has_tab(v.active[i]));
            } else {
                assert(commands[i].target == target);
            }
        }
    }
}

} // verus!
