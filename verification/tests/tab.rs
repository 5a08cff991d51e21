use rin_tabs::error::TabError;
use rin_tabs::geometry::{
    LogicalPosition, LogicalSize, PhysicalSize, Placement, ScaleFactor,
};
use rin_tabs::ident::TabId;
use rin_tabs::layout::{SidebarManager, SidebarState};
use rin_tabs::navigation::TabNavigation;
use rin_tabs::surface::{
    Surface, SurfaceAction, SurfaceCommand, SurfaceOutcome, WindowSnapshot,
};
use rin_tabs::tab::{Tab, TabManager};

/// A host that keeps its surfaces in a list and does what it is told.
struct Host {
    surfaces: Vec<Surface>,
    visible: Vec<TabId>,
    log: Vec<SurfaceCommand>,
}

impl Host {
    fn new() -> Host {
        Host { surfaces: Vec::new(), visible: Vec::new(), log: Vec::new() }
    }

    /// What is on show is the active tab, and nothing else.
    fn shows_the_active_tab(&self, tabs: &TabManager) {
        assert_eq!(self.visible, active(tabs));
        assert!(self.visible.len() <= 1);
    }

    fn window(&self) -> WindowSnapshot {
        WindowSnapshot {
            size: PhysicalSize { width: 1000, height: 800 },
            scale: ScaleFactor::from_milli(2000).unwrap(),
            surfaces: self.surfaces.clone(),
        }
    }

    fn perform(&mut self, command: &SurfaceCommand) -> SurfaceOutcome {
        self.log.push(command.clone());
        let place = self.surfaces.iter().position(|s| s.id == command.target);
        match (&command.action, place) {
            (SurfaceAction::Create { url, .. }, _) => {
                self.surfaces.push(Surface { id: command.target, url: Some(url.clone()) });
                SurfaceOutcome::Succeeded
            }
            (_, None) => SurfaceOutcome::TargetAbsent,
            (SurfaceAction::Close, Some(p)) => {
                self.surfaces.remove(p);
                self.visible.retain(|id| *id != command.target);
                SurfaceOutcome::Succeeded
            }
            (SurfaceAction::Show, Some(_)) => {
                self.visible.push(command.target);
                SurfaceOutcome::Succeeded
            }
            (SurfaceAction::Hide, Some(_)) => {
                self.visible.retain(|id| *id != command.target);
                SurfaceOutcome::Succeeded
            }
            (SurfaceAction::Navigate { url }, Some(p)) => {
                self.surfaces[p].url = Some(url.clone());
                SurfaceOutcome::Succeeded
            }
            (_, Some(_)) => SurfaceOutcome::Succeeded,
        }
    }

    fn create(&mut self, tabs: &mut TabManager, sidebars: &SidebarManager, url: &str) -> TabId {
        let window = self.window();
        let (id, make) = tabs.create_tab(sidebars, "main", Some(&window), url, url).unwrap();
        assert_eq!(self.perform(&make), SurfaceOutcome::Succeeded);
        assert!(tabs.is_consistent());
        self.shows_the_active_tab(tabs);
        id
    }

    fn switch(&mut self, tabs: &mut TabManager, sidebars: &SidebarManager, id: TabId) -> usize {
        let window = self.window();
        let (answer, commands) = tabs.switch_tab(sidebars, "main", Some(&window), id).unwrap();
        assert_eq!(answer, id);
        for command in &commands {
            let outcome = self.perform(command);
            assert!(command.settle(outcome).is_ok());
        }
        assert!(tabs.is_consistent());
        self.shows_the_active_tab(tabs);
        commands.len()
    }

    fn close(&mut self, tabs: &mut TabManager, id: TabId) {
        let window = self.window();
        let close = tabs.close_tab(Some(&window), id).unwrap();
        let outcome = self.perform(&close);
        assert!(close.settle(outcome).is_ok());
        assert!(tabs.is_consistent());
        self.shows_the_active_tab(tabs);
    }
}

fn list(tabs: &TabManager) -> Vec<Tab> {
    tabs.get_tab_info_list(String::from("main"))
}

fn indexes(tabs: &TabManager) -> Vec<usize> {
    list(tabs).iter().map(|t| t.index).collect()
}

fn ids(tabs: &TabManager) -> Vec<TabId> {
    list(tabs).iter().map(|t| t.id).collect()
}

fn active(tabs: &TabManager) -> Vec<TabId> {
    list(tabs).iter().filter(|t| t.is_active).map(|t| t.id).collect()
}

/// The rectangle of a surface in the host's window beside the default sidebar.
fn default_placement() -> Placement {
    Placement {
        position: LogicalPosition { x: 205, y: 10 },
        size: LogicalSize { width: 500 - 205 - 10, height: 400 - 20 },
    }
}

#[test]
fn new_manager_has_no_tabs() {
    let tabs = TabManager::new();
    assert!(tabs.is_consistent());
    assert!(list(&tabs).is_empty());
    assert!(!tabs.is_active(TabId { value: 0 }));
    assert_eq!(tabs.position(TabId { value: 0 }), None);
}

#[test]
fn create_tab_fails_without_a_window() {
    let mut tabs = TabManager::new();
    let sidebars = SidebarManager::new();
    assert_eq!(
        tabs.create_tab(&sidebars, "main", None, "https://a", "A"),
        Err(TabError::WindowNotFound)
    );
    assert_eq!(
        tabs.create_tab_seeded(&sidebars, "main", None, TabId { value: 1 }, "https://a", "A"),
        Err(TabError::WindowNotFound)
    );
    assert!(list(&tabs).is_empty());
}

#[test]
fn create_tab_fills_in_the_record() {
    let mut tabs = TabManager::new();
    let sidebars = SidebarManager::new();
    let host = Host::new();
    let window = host.window();
    let (id, make) = tabs
        .create_tab_seeded(&sidebars, "main", Some(&window), TabId { value: 77 }, "https://a", "First")
        .unwrap();
    assert_eq!(id, TabId { value: 77 });
    assert_eq!(
        list(&tabs),
        vec![Tab {
            id,
            group_id: id,
            folder_id: None,
            url: String::from("https://a"),
            name: String::from("First"),
            favicon: None,
            index: 0,
            is_pinned: false,
            is_active: false,
        }]
    );
    assert_eq!(
        make,
        SurfaceCommand {
            target: id,
            action: SurfaceAction::Create {
                url: String::from("https://a/"),
                placement: default_placement(),
            },
        }
    );
}

#[test]
fn create_tab_opens_the_fallback_for_a_malformed_address() {
    let mut tabs = TabManager::new();
    let sidebars = SidebarManager::new();
    let window = Host::new().window();
    let (id, make) = tabs.create_tab(&sidebars, "main", Some(&window), "two words", "Search").unwrap();
    assert_eq!(list(&tabs)[0].url, "two words");
    assert_eq!(
        make.action,
        SurfaceAction::Create { url: String::from("https://example.com"), placement: default_placement() }
    );
    assert_eq!(make.target, id);
}

#[test]
fn create_tab_places_the_surface_beside_the_registered_sidebar() {
    let mut tabs = TabManager::new();
    let mut sidebars = SidebarManager::new();
    sidebars.set("main", SidebarState { width: 200 });
    let window = Host::new().window();
    let (_, make) = tabs.create_tab(&sidebars, "main", Some(&window), "https://a", "A").unwrap();
    let expected = Placement {
        position: LogicalPosition { x: 200, y: 10 },
        size: LogicalSize { width: 290, height: 380 },
    };
    assert_eq!(make.action, SurfaceAction::Create { url: String::from("https://a/"), placement: expected });
    // Another window's entry does not count.
    let (_, other) = tabs.create_tab(&sidebars, "second", Some(&window), "https://a", "A").unwrap();
    assert_eq!(
        other.action,
        SurfaceAction::Create { url: String::from("https://a/"), placement: default_placement() }
    );
}

#[test]
fn creating_tabs_numbers_them_from_zero() {
    let mut tabs = TabManager::new();
    let sidebars = SidebarManager::new();
    let mut host = Host::new();
    let mut made = Vec::new();
    for n in 0..7usize {
        made.push(host.create(&mut tabs, &sidebars, "https://example.com"));
        assert_eq!(indexes(&tabs), (0..=n).collect::<Vec<usize>>());
    }
    assert_eq!(ids(&tabs), made);
    let mut distinct = made.clone();
    distinct.sort_by_key(|id| id.value);
    distinct.dedup();
    assert_eq!(distinct.len(), 7);
    assert!(active(&tabs).is_empty());
}

#[test]
fn create_tab_seeded_skips_identifiers_in_use() {
    let mut tabs = TabManager::new();
    let sidebars = SidebarManager::new();
    let window = Host::new().window();
    let seed = TabId { value: 10 };
    let mut got = Vec::new();
    for _ in 0..3 {
        let (id, make) = tabs.create_tab_seeded(&sidebars, "main", Some(&window), seed, "https://a", "A").unwrap();
        assert_eq!(make.target, id);
        got.push(id.value);
    }
    assert_eq!(got, vec![10, 11, 12]);
    let (id, _) = tabs
        .create_tab_seeded(&sidebars, "main", Some(&window), TabId { value: 11 }, "https://a", "A")
        .unwrap();
    assert_eq!(id.value, 13);
    let (id, _) = tabs
        .create_tab_seeded(&sidebars, "main", Some(&window), TabId { value: 9 }, "https://a", "A")
        .unwrap();
    assert_eq!(id.value, 9);
    assert_eq!(indexes(&tabs), vec![0, 1, 2, 3, 4]);
}

#[test]
fn create_tab_seeded_counts_round_past_the_largest_identifier() {
    let mut tabs = TabManager::new();
    let sidebars = SidebarManager::new();
    let window = Host::new().window();
    let seed = TabId { value: u128::MAX };
    let (first, _) = tabs.create_tab_seeded(&sidebars, "main", Some(&window), seed, "https://a", "A").unwrap();
    let (second, _) = tabs.create_tab_seeded(&sidebars, "main", Some(&window), seed, "https://a", "A").unwrap();
    assert_eq!(first.value, u128::MAX);
    assert_eq!(second.value, 0);
    assert_eq!(tabs.fresh_id(seed), TabId { value: 1 });
    assert_eq!(tabs.fresh_id(TabId { value: 5 }), TabId { value: 5 });
}

#[test]
fn position_and_is_active_follow_the_record() {
    let mut tabs = TabManager::new();
    let sidebars = SidebarManager::new();
    let mut host = Host::new();
    let a = host.create(&mut tabs, &sidebars, "https://a");
    let b = host.create(&mut tabs, &sidebars, "https://b");
    assert_eq!(tabs.position(a), Some(0));
    assert_eq!(tabs.position(b), Some(1));
    assert!(!tabs.is_active(a));
    host.switch(&mut tabs, &sidebars, b);
    assert!(tabs.is_active(b));
    assert!(!tabs.is_active(a));
}

#[test]
fn switch_tab_tells_the_host_what_to_do() {
    let mut tabs = TabManager::new();
    let sidebars = SidebarManager::new();
    let mut host = Host::new();
    let a = host.create(&mut tabs, &sidebars, "https://a");
    let b = host.create(&mut tabs, &sidebars, "https://b");
    let window = host.window();
    let place = SurfaceAction::Place { placement: default_placement() };
    assert_eq!(
        tabs.switch_tab(&sidebars, "main", Some(&window), a),
        Ok((
            a,
            vec![
                SurfaceCommand { target: a, action: SurfaceAction::Show },
                SurfaceCommand { target: a, action: SurfaceAction::Focus },
                SurfaceCommand { target: a, action: place.clone() },
            ]
        ))
    );
    assert_eq!(
        tabs.switch_tab(&sidebars, "main", Some(&window), b),
        Ok((
            b,
            vec![
                SurfaceCommand { target: a, action: SurfaceAction::Hide },
                SurfaceCommand { target: b, action: SurfaceAction::Show },
                SurfaceCommand { target: b, action: SurfaceAction::Focus },
                SurfaceCommand { target: b, action: place },
            ]
        ))
    );
}

#[test]
fn switching_twice_leaves_the_second_tab_active() {
    let mut tabs = TabManager::new();
    let sidebars = SidebarManager::new();
    let mut host = Host::new();
    let a = host.create(&mut tabs, &sidebars, "https://a");
    let b = host.create(&mut tabs, &sidebars, "https://b");
    host.switch(&mut tabs, &sidebars, a);
    assert_eq!(active(&tabs), vec![a]);
    host.switch(&mut tabs, &sidebars, b);
    assert_eq!(active(&tabs), vec![b]);
    assert!(tabs.is_active(b));
    assert!(!tabs.is_active(a));
    assert!(active(&tabs).len() <= 1);
}

#[test]
fn switching_to_the_active_tab_does_nothing() {
    let mut tabs = TabManager::new();
    let sidebars = SidebarManager::new();
    let mut host = Host::new();
    let a = host.create(&mut tabs, &sidebars, "https://a");
    let _b = host.create(&mut tabs, &sidebars, "https://b");
    host.switch(&mut tabs, &sidebars, a);
    let before = list(&tabs);
    let told = host.log.len();
    assert_eq!(host.switch(&mut tabs, &sidebars, a), 0);
    assert_eq!(host.log.len(), told);
    assert_eq!(list(&tabs), before);
    // Not even a missing window matters then.
    assert_eq!(tabs.switch_tab(&sidebars, "main", None, a), Ok((a, Vec::new())));
    assert_eq!(list(&tabs), before);
}

#[test]
fn switch_tab_fails_without_a_window() {
    let mut tabs = TabManager::new();
    let sidebars = SidebarManager::new();
    let mut host = Host::new();
    let a = host.create(&mut tabs, &sidebars, "https://a");
    assert_eq!(tabs.switch_tab(&sidebars, "main", None, a), Err(TabError::WindowNotFound));
    assert!(active(&tabs).is_empty());
}

#[test]
fn switch_tab_fails_without_a_surface_and_keeps_the_active_tab() {
    let mut tabs = TabManager::new();
    let sidebars = SidebarManager::new();
    let mut host = Host::new();
    let a = host.create(&mut tabs, &sidebars, "https://a");
    let b = host.create(&mut tabs, &sidebars, "https://b");
    host.switch(&mut tabs, &sidebars, a);
    // The surface of b goes away behind the manager's back.
    host.surfaces.retain(|s| s.id != b);
    let window = host.window();
    assert_eq!(tabs.switch_tab(&sidebars, "main", Some(&window), b), Err(TabError::WebviewNotFound));
    assert_eq!(active(&tabs), vec![a]);
}

#[test]
fn switch_tab_fails_for_an_unknown_tab() {
    let mut tabs = TabManager::new();
    let sidebars = SidebarManager::new();
    let mut host = Host::new();
    let a = host.create(&mut tabs, &sidebars, "https://a");
    host.switch(&mut tabs, &sidebars, a);
    let stranger = TabId { value: a.value.wrapping_add(1) };
    host.surfaces.push(Surface { id: stranger, url: Some(String::from("https://s/")) });
    let window = host.window();
    assert_eq!(
        tabs.switch_tab(&sidebars, "main", Some(&window), stranger),
        Err(TabError::WebviewNotFound)
    );
    assert_eq!(active(&tabs), vec![a]);
}

#[test]
fn close_tab_fails_without_a_window() {
    let mut tabs = TabManager::new();
    let sidebars = SidebarManager::new();
    let mut host = Host::new();
    let a = host.create(&mut tabs, &sidebars, "https://a");
    assert_eq!(tabs.close_tab(None, a), Err(TabError::WindowNotFound));
    assert_eq!(ids(&tabs), vec![a]);
}

#[test]
fn closing_any_tab_renumbers_the_rest() {
    for victim in 0..5usize {
        let mut tabs = TabManager::new();
        let sidebars = SidebarManager::new();
        let mut host = Host::new();
        let mut made = Vec::new();
        for _ in 0..5 {
            made.push(host.create(&mut tabs, &sidebars, "https://example.com"));
        }
        host.close(&mut tabs, made[victim]);
        made.remove(victim);
        assert_eq!(ids(&tabs), made);
        assert_eq!(indexes(&tabs), vec![0, 1, 2, 3]);
        assert_eq!(host.surfaces.len(), 4);
    }
}

#[test]
fn closing_the_active_tab_activates_no_other() {
    let mut tabs = TabManager::new();
    let sidebars = SidebarManager::new();
    let mut host = Host::new();
    let a = host.create(&mut tabs, &sidebars, "https://a");
    let b = host.create(&mut tabs, &sidebars, "https://b");
    host.switch(&mut tabs, &sidebars, a);
    host.close(&mut tabs, a);
    assert_eq!(ids(&tabs), vec![b]);
    assert!(active(&tabs).is_empty());
    assert!(!tabs.is_active(a));
    assert!(!tabs.is_active(b));
}

#[test]
fn closing_an_unknown_tab_changes_nothing() {
    let mut tabs = TabManager::new();
    let sidebars = SidebarManager::new();
    let mut host = Host::new();
    let a = host.create(&mut tabs, &sidebars, "https://a");
    host.switch(&mut tabs, &sidebars, a);
    let before = list(&tabs);
    let stranger = TabId { value: a.value.wrapping_add(1) };
    let window = host.window();
    assert_eq!(
        tabs.close_tab(Some(&window), stranger),
        Ok(SurfaceCommand { target: stranger, action: SurfaceAction::Close })
    );
    assert_eq!(list(&tabs), before);
}

#[test]
fn closing_a_tab_whose_surface_is_gone_still_removes_it() {
    let mut tabs = TabManager::new();
    let sidebars = SidebarManager::new();
    let mut host = Host::new();
    let a = host.create(&mut tabs, &sidebars, "https://a");
    host.surfaces.clear();
    let window = host.window();
    let close = tabs.close_tab(Some(&window), a).unwrap();
    let outcome = host.perform(&close);
    assert_eq!(outcome, SurfaceOutcome::TargetAbsent);
    assert_eq!(close.settle(outcome), Ok(SurfaceOutcome::TargetAbsent));
    assert!(list(&tabs).is_empty());
}

#[test]
fn only_the_active_surface_is_on_show() {
    let mut tabs = TabManager::new();
    let sidebars = SidebarManager::new();
    let mut host = Host::new();
    let a = host.create(&mut tabs, &sidebars, "https://a");
    let b = host.create(&mut tabs, &sidebars, "https://b");
    let c = host.create(&mut tabs, &sidebars, "https://c");
    assert!(host.visible.is_empty());
    host.switch(&mut tabs, &sidebars, a);
    assert_eq!(host.visible, vec![a]);
    host.switch(&mut tabs, &sidebars, c);
    assert_eq!(host.visible, vec![c]);
    host.switch(&mut tabs, &sidebars, c);
    assert_eq!(host.visible, vec![c]);
    host.close(&mut tabs, b);
    assert_eq!(host.visible, vec![c]);
    host.close(&mut tabs, c);
    assert!(host.visible.is_empty());
    host.switch(&mut tabs, &sidebars, a);
    assert_eq!(host.visible, vec![a]);
}

#[test]
fn three_tabs_switch_and_close() {
    let mut tabs = TabManager::new();
    let sidebars = SidebarManager::new();
    let mut host = Host::new();
    let mut made = Vec::new();
    for url in ["https://a", "https://b", "https://c"] {
        made.push(host.create(&mut tabs, &sidebars, url));
    }
    assert_eq!(indexes(&tabs), vec![0, 1, 2]);
    host.switch(&mut tabs, &sidebars, made[1]);
    host.close(&mut tabs, made[0]);
    let rest = list(&tabs);
    assert_eq!(rest.len(), 2);
    assert_eq!(indexes(&tabs), vec![0, 1]);
    assert_eq!(rest[0].id, made[1]);
    assert_eq!(rest[0].url, "https://b");
    assert_eq!(rest[0].index, 0);
    assert_eq!(rest[1].id, made[2]);
    assert_eq!(rest[1].url, "https://c");
    assert_eq!(rest[1].index, 1);
    assert_eq!(active(&tabs), vec![made[1]]);
    assert!(tabs.is_active(made[1]));
    assert!(rest[0].is_active);
    assert!(!rest[1].is_active);
}

#[test]
fn tab_resized_places_the_active_surface() {
    let mut tabs = TabManager::new();
    let mut sidebars = SidebarManager::new();
    let mut host = Host::new();
    let a = host.create(&mut tabs, &sidebars, "https://a");
    let _b = host.create(&mut tabs, &sidebars, "https://b");
    let window = host.window();
    assert_eq!(tabs.tab_resized(&sidebars, "main", Some(&window)), Vec::new());
    host.switch(&mut tabs, &sidebars, a);
    assert_eq!(
        tabs.tab_resized(&sidebars, "main", Some(&window)),
        vec![SurfaceCommand { target: a, action: SurfaceAction::Place { placement: default_placement() } }]
    );
    sidebars.set("main", SidebarState { width: 100 });
    let larger = WindowSnapshot {
        size: PhysicalSize { width: 1600, height: 1200 },
        scale: ScaleFactor::identity(),
        surfaces: host.surfaces.clone(),
    };
    assert_eq!(
        tabs.tab_resized(&sidebars, "main", Some(&larger)),
        vec![SurfaceCommand {
            target: a,
            action: SurfaceAction::Place {
                placement: Placement {
                    position: LogicalPosition { x: 100, y: 10 },
                    size: LogicalSize { width: 1490, height: 1180 },
                }
            }
        }]
    );
}

#[test]
fn tab_resized_is_silent_without_a_window() {
    let mut tabs = TabManager::new();
    let sidebars = SidebarManager::new();
    let mut host = Host::new();
    let a = host.create(&mut tabs, &sidebars, "https://a");
    host.switch(&mut tabs, &sidebars, a);
    assert_eq!(tabs.tab_resized(&sidebars, "main", None), Vec::new());
}

#[test]
fn navigate_fails_without_window_or_surface() {
    let mut tabs = TabManager::new();
    let sidebars = SidebarManager::new();
    let mut host = Host::new();
    let a = host.create(&mut tabs, &sidebars, "https://a");
    assert_eq!(tabs.navigate(None, a, TabNavigation::Reload), Err(TabError::WindowNotFound));
    // A missing window comes before a malformed address.
    assert_eq!(
        tabs.navigate(None, a, TabNavigation::NavigateTo(String::from("x"))),
        Err(TabError::WindowNotFound)
    );
    host.surfaces.clear();
    let window = host.window();
    assert_eq!(tabs.navigate(Some(&window), a, TabNavigation::Back), Err(TabError::WebviewNotFound));
    assert_eq!(
        tabs.navigate(Some(&window), a, TabNavigation::NavigateTo(String::from("x"))),
        Err(TabError::WebviewNotFound)
    );
}

#[test]
fn navigate_hands_history_requests_on() {
    let mut tabs = TabManager::new();
    let sidebars = SidebarManager::new();
    let mut host = Host::new();
    let a = host.create(&mut tabs, &sidebars, "https://a");
    let window = host.window();
    assert_eq!(
        tabs.navigate(Some(&window), a, TabNavigation::Back),
        Ok(SurfaceCommand { target: a, action: SurfaceAction::HistoryBack })
    );
    assert_eq!(
        tabs.navigate(Some(&window), a, TabNavigation::Forward),
        Ok(SurfaceCommand { target: a, action: SurfaceAction::HistoryForward })
    );
    assert_eq!(
        tabs.navigate(Some(&window), a, TabNavigation::Reload),
        Ok(SurfaceCommand { target: a, action: SurfaceAction::Reload })
    );
}

#[test]
fn navigate_to_the_current_address_reloads() {
    let mut tabs = TabManager::new();
    let sidebars = SidebarManager::new();
    let mut host = Host::new();
    let a = host.create(&mut tabs, &sidebars, "https://a");
    let b = host.create(&mut tabs, &sidebars, "https://b");
    let window = host.window();
    assert_eq!(
        tabs.navigate(Some(&window), a, TabNavigation::NavigateTo(String::from("https://a"))),
        Ok(SurfaceCommand { target: a, action: SurfaceAction::Reload })
    );
    // What another surface shows does not count.
    assert_eq!(
        tabs.navigate(Some(&window), b, TabNavigation::NavigateTo(String::from("https://a"))),
        Ok(SurfaceCommand { target: b, action: SurfaceAction::Navigate { url: String::from("https://a/") } })
    );
}

#[test]
fn navigate_goes_to_a_new_address_and_fails_on_a_malformed_one() {
    let mut tabs = TabManager::new();
    let sidebars = SidebarManager::new();
    let mut host = Host::new();
    let a = host.create(&mut tabs, &sidebars, "https://a");
    let window = host.window();
    let go = tabs
        .navigate(Some(&window), a, TabNavigation::NavigateTo(String::from("https://a/page")))
        .unwrap();
    assert_eq!(go.action, SurfaceAction::Navigate { url: String::from("https://a/page") });
    assert_eq!(host.perform(&go), SurfaceOutcome::Succeeded);
    let window = host.window();
    assert_eq!(
        tabs.navigate(Some(&window), a, TabNavigation::NavigateTo(String::from("https://a/page"))),
        Ok(SurfaceCommand { target: a, action: SurfaceAction::Reload })
    );
    assert_eq!(
        tabs.navigate(Some(&window), a, TabNavigation::NavigateTo(String::from("a page"))),
        Err(TabError::UrlParseError)
    );
}

#[test]
fn navigate_fails_where_the_surface_does_not_tell_its_address() {
    let mut tabs = TabManager::new();
    let sidebars = SidebarManager::new();
    let mut host = Host::new();
    let a = host.create(&mut tabs, &sidebars, "https://a");
    let b = host.create(&mut tabs, &sidebars, "https://b");
    host.surfaces[0].url = None;
    let before = list(&tabs);
    let window = host.window();
    assert_eq!(
        tabs.navigate(Some(&window), a, TabNavigation::NavigateTo(String::from("https://a"))),
        Err(TabError::SurfaceOperationFailed)
    );
    assert_eq!(
        tabs.navigate(Some(&window), a, TabNavigation::NavigateTo(String::from("not one"))),
        Err(TabError::UrlParseError)
    );
    for (request, action) in [
        (TabNavigation::Back, SurfaceAction::HistoryBack),
        (TabNavigation::Reload, SurfaceAction::Reload),
        (TabNavigation::Forward, SurfaceAction::HistoryForward),
    ] {
        assert_eq!(
            tabs.navigate(Some(&window), a, request),
            Ok(SurfaceCommand { target: a, action })
        );
    }
    // The other surface still tells its address.
    assert_eq!(
        tabs.navigate(Some(&window), b, TabNavigation::NavigateTo(String::from("https://b"))),
        Ok(SurfaceCommand { target: b, action: SurfaceAction::Reload })
    );
    assert_eq!(list(&tabs), before);
}

#[test]
fn tab_clone_keeps_every_field() {
    let tab = Tab {
        id: TabId { value: 1 },
        group_id: TabId { value: 2 },
        folder_id: Some(TabId { value: 3 }),
        url: String::from("https://a"),
        name: String::from("A"),
        favicon: Some(String::from("https://a/icon.png")),
        index: 4,
        is_pinned: true,
        is_active: true,
    };
    assert_eq!(tab.clone(), tab);
}
