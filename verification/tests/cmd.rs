use rin_tabs::cmd::{
    close_tab_cmd, create_tab_cmd, get_sidebar_width_cmd, get_tab_info_list_cmd,
    navigate_tab_cmd, navigation_for_code, navigation_for_url, set_sidebar_width_cmd,
    switch_tab_cmd, tab_history_cmd, CmdResult, StringifyErr,
};
use rin_tabs::error::TabError;
use rin_tabs::geometry::{LogicalPosition, LogicalSize, PhysicalSize, Placement, ScaleFactor};
use rin_tabs::ident::TabId;
use rin_tabs::layout::{SidebarManager, SidebarState};
use rin_tabs::navigation::TabNavigation;
use rin_tabs::surface::{Surface, SurfaceAction, SurfaceCommand, WindowSnapshot};
use rin_tabs::tab::TabManager;
use std::cell::RefCell;

fn window(surfaces: Vec<Surface>) -> WindowSnapshot {
    WindowSnapshot {
        size: PhysicalSize { width: 1000, height: 800 },
        scale: ScaleFactor::from_milli(2000).unwrap(),
        surfaces,
    }
}

/// Opens a tab through the command and returns its identifier as text and
/// the surface the host would have made for it.
fn open(tabs: &mut TabManager, sidebars: &SidebarManager, surfaces: &mut Vec<Surface>, url: &str) -> String {
    let snapshot = window(surfaces.clone());
    let (text, make) = create_tab_cmd(
        tabs,
        sidebars,
        String::from("main"),
        Some(&snapshot),
        String::from(url),
        String::from("tab"),
    )
    .unwrap();
    match make.action {
        SurfaceAction::Create { url, .. } => {
            surfaces.push(Surface { id: make.target, url: Some(url) })
        }
        other => panic!("expected a surface to be made, got {:?}", other),
    }
    text
}

const NO_ID: &str = "Invalid tab identifier";

#[test]
fn failures_have_their_words() {
    assert_eq!(TabError::WindowNotFound.message(), "Window not found");
    assert_eq!(TabError::WebviewNotFound.message(), "Webview not found");
    assert_eq!(TabError::InvalidIdentifier.message(), "Invalid tab identifier");
    assert_eq!(TabError::InvalidNavigationAction.message(), "Invalid navigation action");
    assert_eq!(TabError::UrlParseError.message(), "Failed to parse URL");
    assert_eq!(TabError::SurfaceOperationFailed.message(), "Surface operation failed");
}

#[test]
fn stringify_err_puts_the_failure_into_words() {
    let good: Result<u8, TabError> = Ok(3);
    assert_eq!(good.stringify_err(), Ok(3));
    let bad: Result<u8, TabError> = Err(TabError::WebviewNotFound);
    assert_eq!(bad.stringify_err(), Err(String::from("Webview not found")));
    let unit: CmdResult = Err::<(), TabError>(TabError::UrlParseError).stringify_err();
    assert_eq!(unit, Err(String::from("Failed to parse URL")));
}

#[test]
fn stringify_err_puts_any_failure_that_displays_into_words() {
    let bad: Result<u8, &str> = Err("no such thing");
    assert_eq!(bad.stringify_err(), Err(String::from("no such thing")));
    let good: Result<u8, String> = Ok(9);
    assert_eq!(good.stringify_err(), Ok(9));
    let number: Result<(), u32> = Err(404);
    assert_eq!(number.stringify_err(), Err(String::from("404")));
    let parsed: Result<u8, std::num::ParseIntError> = "x".parse::<u8>();
    assert_eq!(parsed.stringify_err(), Err(String::from("invalid digit found in string")));
    let outside = uuid::Uuid::parse_str("zz").stringify_err();
    assert_eq!(outside, Err(uuid::Uuid::parse_str("zz").unwrap_err().to_string()));
}

#[test]
fn stringify_err_log_hands_any_failure_to_the_logger() {
    let seen: RefCell<Vec<String>> = RefCell::new(Vec::new());
    let bad: Result<u8, &str> = Err("broken");
    let answer = bad.stringify_err_log(|text: &str| seen.borrow_mut().push(text.to_string()));
    assert_eq!(answer, Err(String::from("broken")));
    assert_eq!(*seen.borrow(), vec![String::from("broken")]);
    let good: Result<u8, &str> = Ok(2);
    assert_eq!(good.stringify_err_log(|text: &str| seen.borrow_mut().push(text.to_string())), Ok(2));
    assert_eq!(seen.borrow().len(), 1);
}

#[test]
fn stringify_err_log_hands_the_words_to_the_logger() {
    let seen: RefCell<Vec<String>> = RefCell::new(Vec::new());
    let bad: Result<u8, TabError> = Err(TabError::WindowNotFound);
    let answer = bad.stringify_err_log(|text: &str| seen.borrow_mut().push(text.to_string()));
    assert_eq!(answer, Err(String::from("Window not found")));
    assert_eq!(*seen.borrow(), vec![String::from("Window not found")]);
    let good: Result<u8, TabError> = Ok(1);
    assert_eq!(good.stringify_err_log(|text: &str| seen.borrow_mut().push(text.to_string())), Ok(1));
    assert_eq!(seen.borrow().len(), 1);
}

#[test]
fn history_directions() {
    assert!(matches!(navigation_for_code(-1), Ok(TabNavigation::Back)));
    assert!(matches!(navigation_for_code(0), Ok(TabNavigation::Reload)));
    assert!(matches!(navigation_for_code(1), Ok(TabNavigation::Forward)));
    for code in [2i8, -2, 3, 127, -128] {
        assert!(matches!(navigation_for_code(code), Err(TabError::InvalidNavigationAction)));
    }
}

#[test]
fn optional_address_to_request() {
    assert!(matches!(navigation_for_url(None), TabNavigation::Reload));
    match navigation_for_url(Some(String::from("https://a"))) {
        TabNavigation::NavigateTo(url) => assert_eq!(url, "https://a"),
        other => panic!("expected a navigation, got {:?}", other),
    }
}

#[test]
fn tab_history_with_direction_two_fails() {
    let mut tabs = TabManager::new();
    let sidebars = SidebarManager::new();
    let mut surfaces = Vec::new();
    let id = open(&mut tabs, &sidebars, &mut surfaces, "https://a");
    let snapshot = window(surfaces);
    assert_eq!(
        tab_history_cmd(&tabs, Some(&snapshot), id.clone(), 2),
        Err(String::from("Invalid navigation action"))
    );
    // The direction is looked at before the window.
    assert_eq!(tab_history_cmd(&tabs, None, id, 2), Err(String::from("Invalid navigation action")));
}

#[test]
fn tab_history_moves_through_the_history() {
    let mut tabs = TabManager::new();
    let sidebars = SidebarManager::new();
    let mut surfaces = Vec::new();
    let text = open(&mut tabs, &sidebars, &mut surfaces, "https://a");
    let id = TabId::parse(&text).unwrap();
    let snapshot = window(surfaces);
    assert_eq!(
        tab_history_cmd(&tabs, Some(&snapshot), text.clone(), -1),
        Ok(SurfaceCommand { target: id, action: SurfaceAction::HistoryBack })
    );
    assert_eq!(
        tab_history_cmd(&tabs, Some(&snapshot), text.clone(), 0),
        Ok(SurfaceCommand { target: id, action: SurfaceAction::Reload })
    );
    assert_eq!(
        tab_history_cmd(&tabs, Some(&snapshot), text.clone(), 1),
        Ok(SurfaceCommand { target: id, action: SurfaceAction::HistoryForward })
    );
    assert_eq!(tab_history_cmd(&tabs, None, text, 1), Err(String::from("Window not found")));
}

#[test]
fn a_malformed_identifier_comes_first() {
    let mut tabs = TabManager::new();
    let sidebars = SidebarManager::new();
    let bad = String::from("no identifier");
    assert_eq!(tab_history_cmd(&tabs, None, bad.clone(), 2), Err(String::from(NO_ID)));
    assert_eq!(navigate_tab_cmd(&tabs, None, bad.clone(), None), Err(String::from(NO_ID)));
    assert_eq!(close_tab_cmd(&mut tabs, None, bad.clone()), Err(String::from(NO_ID)));
    assert_eq!(
        switch_tab_cmd(&mut tabs, &sidebars, String::from("main"), None, bad),
        Err(String::from(NO_ID))
    );
}

#[test]
fn create_tab_cmd_answers_with_the_identifier_as_text() {
    let mut tabs = TabManager::new();
    let sidebars = SidebarManager::new();
    let snapshot = window(Vec::new());
    let (text, make) = create_tab_cmd(
        &mut tabs,
        &sidebars,
        String::from("main"),
        Some(&snapshot),
        String::from("https://tauri.app"),
        String::from("Tauri Docs"),
    )
    .unwrap();
    assert_eq!(text.len(), 36);
    assert_eq!(TabId::parse(&text), Ok(make.target));
    assert_eq!(text, make.target.to_text());
    let listed = get_tab_info_list_cmd(&tabs, String::from("main")).unwrap();
    assert_eq!(listed.len(), 1);
    assert_eq!(listed[0].id, make.target);
    assert_eq!(listed[0].name, "Tauri Docs");
    assert_eq!(listed[0].url, "https://tauri.app");
}

#[test]
fn create_tab_cmd_fails_without_a_window() {
    let mut tabs = TabManager::new();
    let sidebars = SidebarManager::new();
    assert_eq!(
        create_tab_cmd(
            &mut tabs,
            &sidebars,
            String::from("main"),
            None,
            String::from("https://a"),
            String::from("A")
        ),
        Err(String::from("Window not found"))
    );
    assert_eq!(get_tab_info_list_cmd(&tabs, String::from("main")), Ok(Vec::new()));
}

#[test]
fn switch_and_close_through_the_commands() {
    let mut tabs = TabManager::new();
    let sidebars = SidebarManager::new();
    let mut surfaces = Vec::new();
    let a = open(&mut tabs, &sidebars, &mut surfaces, "https://a");
    let b = open(&mut tabs, &sidebars, &mut surfaces, "https://b");
    let snapshot = window(surfaces);
    let commands =
        switch_tab_cmd(&mut tabs, &sidebars, String::from("main"), Some(&snapshot), b.clone()).unwrap();
    assert_eq!(commands.len(), 3);
    assert_eq!(
        switch_tab_cmd(&mut tabs, &sidebars, String::from("main"), Some(&snapshot), b.clone()),
        Ok(Vec::new())
    );
    assert_eq!(
        switch_tab_cmd(&mut tabs, &sidebars, String::from("main"), None, a.clone()),
        Err(String::from("Window not found"))
    );
    let unknown = TabId { value: 1 }.to_text();
    assert_eq!(
        switch_tab_cmd(&mut tabs, &sidebars, String::from("main"), Some(&snapshot), unknown),
        Err(String::from("Webview not found"))
    );
    assert_eq!(close_tab_cmd(&mut tabs, None, a.clone()), Err(String::from("Window not found")));
    let a_id = TabId::parse(&a).unwrap();
    assert_eq!(
        close_tab_cmd(&mut tabs, Some(&snapshot), a),
        Ok(SurfaceCommand { target: a_id, action: SurfaceAction::Close })
    );
    let listed = get_tab_info_list_cmd(&tabs, String::from("main")).unwrap();
    assert_eq!(listed.len(), 1);
    assert_eq!(listed[0].id, TabId::parse(&b).unwrap());
    assert_eq!(listed[0].index, 0);
    assert!(listed[0].is_active);
}

#[test]
fn navigate_tab_cmd_reloads_without_an_address() {
    let mut tabs = TabManager::new();
    let sidebars = SidebarManager::new();
    let mut surfaces = Vec::new();
    let text = open(&mut tabs, &sidebars, &mut surfaces, "https://a");
    let id = TabId::parse(&text).unwrap();
    let snapshot = window(surfaces);
    assert_eq!(
        navigate_tab_cmd(&tabs, Some(&snapshot), text.clone(), None),
        Ok(SurfaceCommand { target: id, action: SurfaceAction::Reload })
    );
    assert_eq!(
        navigate_tab_cmd(&tabs, Some(&snapshot), text.clone(), Some(String::from("https://a/"))),
        Ok(SurfaceCommand { target: id, action: SurfaceAction::Reload })
    );
    assert_eq!(
        navigate_tab_cmd(&tabs, Some(&snapshot), text.clone(), Some(String::from("https://b"))),
        Ok(SurfaceCommand { target: id, action: SurfaceAction::Navigate { url: String::from("https://b/") } })
    );
    assert_eq!(
        navigate_tab_cmd(&tabs, Some(&snapshot), text.clone(), Some(String::from("b"))),
        Err(String::from("Failed to parse URL"))
    );
    assert_eq!(
        navigate_tab_cmd(&tabs, Some(&window(Vec::new())), text.clone(), None),
        Err(String::from("Webview not found"))
    );
    assert_eq!(navigate_tab_cmd(&tabs, None, text, None), Err(String::from("Window not found")));
}

#[test]
fn navigate_tab_cmd_fails_where_the_address_cannot_be_read() {
    let mut tabs = TabManager::new();
    let sidebars = SidebarManager::new();
    let mut surfaces = Vec::new();
    let text = open(&mut tabs, &sidebars, &mut surfaces, "https://a");
    let id = TabId::parse(&text).unwrap();
    surfaces[0].url = None;
    let snapshot = window(surfaces);
    assert_eq!(
        navigate_tab_cmd(&tabs, Some(&snapshot), text.clone(), Some(String::from("https://b"))),
        Err(String::from("Surface operation failed"))
    );
    // A malformed address is found out first; a reload needs no address.
    assert_eq!(
        navigate_tab_cmd(&tabs, Some(&snapshot), text.clone(), Some(String::from("b"))),
        Err(String::from("Failed to parse URL"))
    );
    assert_eq!(
        navigate_tab_cmd(&tabs, Some(&snapshot), text.clone(), None),
        Ok(SurfaceCommand { target: id, action: SurfaceAction::Reload })
    );
    assert_eq!(
        tab_history_cmd(&tabs, Some(&snapshot), text, -1),
        Ok(SurfaceCommand { target: id, action: SurfaceAction::HistoryBack })
    );
}

#[test]
fn sidebar_width_commands() {
    let mut tabs = TabManager::new();
    let mut sidebars = SidebarManager::new();
    let mut surfaces = Vec::new();
    let text = open(&mut tabs, &sidebars, &mut surfaces, "https://a");
    let id = TabId::parse(&text).unwrap();
    let snapshot = window(surfaces);
    switch_tab_cmd(&mut tabs, &sidebars, String::from("main"), Some(&snapshot), text).unwrap();
    assert_eq!(get_sidebar_width_cmd(&sidebars, String::from("main")), Ok(205));

    // The window has no entry yet: the width given is written all the same,
    // and the pass places at it.
    let placed = set_sidebar_width_cmd(&mut sidebars, &tabs, String::from("main"), 250, Some(&snapshot));
    assert_eq!(get_sidebar_width_cmd(&sidebars, String::from("main")), Ok(250));
    assert_eq!(get_sidebar_width_cmd(&sidebars, String::from("other")), Ok(205));
    assert_eq!(
        placed,
        Ok(vec![SurfaceCommand {
            target: id,
            action: SurfaceAction::Place {
                placement: Placement {
                    position: LogicalPosition { x: 250, y: 10 },
                    size: LogicalSize { width: 240, height: 380 },
                }
            }
        }])
    );

    sidebars.set("main", SidebarState { width: 205 });
    let placed = set_sidebar_width_cmd(&mut sidebars, &tabs, String::from("main"), 200, Some(&snapshot));
    assert_eq!(get_sidebar_width_cmd(&sidebars, String::from("main")), Ok(200));
    assert_eq!(
        placed,
        Ok(vec![SurfaceCommand {
            target: id,
            action: SurfaceAction::Place {
                placement: Placement {
                    position: LogicalPosition { x: 200, y: 10 },
                    size: LogicalSize { width: 290, height: 380 },
                }
            }
        }])
    );
    assert_eq!(
        set_sidebar_width_cmd(&mut sidebars, &tabs, String::from("main"), 150, None),
        Ok(Vec::new())
    );
    assert_eq!(get_sidebar_width_cmd(&sidebars, String::from("main")), Ok(150));
}
