//! The commands offered to the user interface.
//!
//! A command takes its arguments as the interface sends them: identifiers as
//! text, a history direction as a number. It answers with a value or with the
//! text of a failure. Like the operations underneath, a command acts on no
//! surface: it returns what the host has to do.

use crate::error::TabError;
use crate::ident::{parsed_tab_id, uuid_parse, uuid_text, TabId};
use crate::layout::{width_of, SidebarManager, SidebarState};
use crate::model::{navigate_result, TabManagerView};
use crate::navigation::{TabNavigation, TabNavigationView};
use crate::surface::{
    commands_view, window_view, SurfaceCommand, SurfaceCommandView, WindowSnapshot,
    WindowSnapshotView,
};
use crate::tab::{Tab, TabManager};
use vstd::prelude::*;

verus! {

/// What a command answers: a value, or the text of a failure.
pub type CmdResult<T = ()> = Result<T, String>;

/// An answer with the failure, if it is one, put into words.
pub open spec fn stringified<T>(result: Result<T, TabError>) -> Result<T, Seq<char>> {
    match result {
        Ok(value) => Ok(value),
        Err(failure) => Err(failure.message_spec()),
    }
}

/// The mathematical content of a command's answer.
pub open spec fn text_view<T>(result: CmdResult<T>) -> Result<T, Seq<char>> {
    match result {
        Ok(value) => Ok(value),
        Err(text) => Err(text@),
    }
}

/// The mathematical content of an answer that holds one surface command.
pub open spec fn command_answer_view(result: CmdResult<SurfaceCommand>) -> Result<
    SurfaceCommandView,
    Seq<char>,
> {
    match result {
        Ok(c) => Ok(c@),
        Err(text) => Err(text@),
    }
}

/// The mathematical content of an answer that holds a list of surface
/// commands.
pub open spec fn commands_answer_view(result: CmdResult<Vec<SurfaceCommand>>) -> Result<
    Seq<SurfaceCommandView>,
    Seq<char>,
> {
    match result {
        Ok(commands) => Ok(commands_view(commands@)),
        Err(text) => Err(text@),
    }
}

/// Turning an answer that may hold a failure into a command's answer.
///
/// The failure is put into words: a [`TabError`] by its message, any other
/// failure by what it displays.
pub trait StringifyErr<T>: Sized {
    /// Whether `answer` is this answer with the failure, if it is one, put
    /// into words.
    spec fn in_words(&self, answer: CmdResult<T>) -> bool;

    /// Puts the failure, if the answer is one, into words.
    fn stringify_err(self) -> (result: CmdResult<T>)
        ensures
            self.in_words(result),
    ;

    /// Puts the failure, if the answer is one, into words, and hands the
    /// words to `log_fn` as well.
    fn stringify_err_log<F: Fn(&str)>(self, log_fn: F) -> (result: CmdResult<T>)
        requires
            forall|text: &str| call_requires(log_fn, (text,)),
        ensures
            self.in_words(result),
    ;
}

impl<T> StringifyErr<T> for Result<T, TabError> {
    open spec fn in_words(&self, answer: CmdResult<T>) -> bool {
        text_view(answer) == stringified(*self)
    }

    fn stringify_err(self) -> (result: CmdResult<T>) {
        match self {
            Ok(value) => Ok(value),
            Err(failure) => Err(failure.message()),
        }
    }

    fn stringify_err_log<F: Fn(&str)>(self, log_fn: F) -> (result: CmdResult<T>) {
        match self {
            Ok(value) => Ok(value),
            Err(failure) => {
                let text: String = failure.message();
                log_fn(text.as_str());
                Err(text)
            },
        }
    }
}

impl<T, E: core::fmt::Display> StringifyErr<T> for Result<T, E> {
    open spec fn in_words(&self, answer: CmdResult<T>) -> bool {
        match *self {
            Ok(value) => answer == Ok::<T, String>(value),
            Err(failure) => answer matches Err(text)
                && vstd::string::to_string_from_display_ensures::<E>(&failure, text),
        }
    }

    fn stringify_err(self) -> (result: CmdResult<T>) {
        match self {
            Ok(value) => Ok(value),
            Err(failure) => Err(failure.to_string()),
        }
    }

    fn stringify_err_log<F: Fn(&str)>(self, log_fn: F) -> (result: CmdResult<T>) {
        match self {
            Ok(value) => Ok(value),
            Err(failure) => {
                let text: String = failure.to_string();
                log_fn(text.as_str());
                Err(text)
            },
        }
    }
}

/// The request a history direction stands for: `-1` goes back, `0` reloads,
/// `1` goes forward. No other number is a direction.
pub open spec fn history_request(code: i8) -> Result<TabNavigationView, TabError> {
    if code == -1 {
        Ok(TabNavigationView::Back)
    } else if code == 0 {
        Ok(TabNavigationView::Reload)
    } else if code == 1 {
        Ok(TabNavigationView::Forward)
    } else {
        Err(TabError::InvalidNavigationAction)
    }
}

/// The request an optional address stands for: going there, or a reload
/// where there is none.
pub open spec fn address_request(url: Option<Seq<char>>) -> TabNavigationView {
    match url {
        Some(address) => TabNavigationView::NavigateTo(address),
        None => TabNavigationView::Reload,
    }
}

/// What the history command answers, before the failure is put into words:
/// `InvalidIdentifier` for a malformed identifier, else
/// `InvalidNavigationAction` for a number that is no direction, else what
/// the navigation answers.
pub open spec fn tab_history_result(
    window: Option<WindowSnapshotView>,
    tab_id: Seq<char>,
    action: i8,
) -> Result<SurfaceCommandView, TabError> {
    match parsed_tab_id(uuid_parse(tab_id)) {
        Err(failure) => Err(failure),
        Ok(id) => match history_request(action) {
            Err(failure) => Err(failure),
            Ok(request) => navigate_result(window, id, request),
        },
    }
}

/// What the navigate command answers, before the failure is put into words:
/// `InvalidIdentifier` for a malformed identifier, else what the navigation
/// answers.
pub open spec fn navigate_tab_result(
    window: Option<WindowSnapshotView>,
    tab_id: Seq<char>,
    url: Option<Seq<char>>,
) -> Result<SurfaceCommandView, TabError> {
    match parsed_tab_id(uuid_parse(tab_id)) {
        Err(failure) => Err(failure),
        Ok(id) => navigate_result(window, id, address_request(url)),
    }
}

/// Reads a history direction.
///
/// Fails with `InvalidNavigationAction` exactly where `code` is none of
/// `-1`, `0` and `1`.
pub fn navigation_for_code(code: i8) -> (request: Result<TabNavigation, TabError>)
    ensures
        match request {
            Ok(r) => history_request(code) == Ok::<TabNavigationView, TabError>(r@),
            Err(e) => history_request(code) == Err::<TabNavigationView, TabError>(e),
        },
{
    if code == -1 {
        Ok(TabNavigation::Back)
    } else if code == 0 {
        Ok(TabNavigation::Reload)
    } else if code == 1 {
        Ok(TabNavigation::Forward)
    } else {
        Err(TabError::InvalidNavigationAction)
    }
}

/// The request an optional address stands for.
pub fn navigation_for_url(url: Option<String>) -> (request: TabNavigation)
    ensures
        request@ == address_request(
            match url {
                Some(address) => Some(address@),
                None => None,
            },
        ),
{
    match url {
        Some(address) => TabNavigation::NavigateTo(address),
        None => TabNavigation::Reload,
    }
}

/// Answers with the sidebar width of the window `window_label`.
pub fn get_sidebar_width_cmd(sidebars: &SidebarManager, window_label: String) -> (result: CmdResult<
    u64,
>)
    ensures
        result matches Ok(width) && width == width_of(sidebars@, window_label@),
{
    Ok(sidebars.get_width(window_label.as_str()))
}

/// Sets the sidebar width of the window `window_label` and answers with the
/// commands of a resize pass at that width.
pub fn set_sidebar_width_cmd(
    sidebars: &mut SidebarManager,
    tab_manager: &TabManager,
    window_label: String,
    width: u64,
    window: Option<&WindowSnapshot>,
) -> (result: CmdResult<Vec<SurfaceCommand>>)
    ensures
        final(sidebars)@ == old(sidebars)@.insert(window_label@, SidebarState { width }),
        commands_answer_view(result) == Ok::<Seq<SurfaceCommandView>, Seq<char>>(
            tab_manager@.resize_result(final(sidebars)@, window_label@, window_view(window)),
        ),
{
    sidebars.update_width(window_label.as_str(), width);
    Ok(tab_manager.tab_resized(sidebars, window_label.as_str(), window))
}

/// Answers with the tabs in the order of their index.
pub fn get_tab_info_list_cmd(tab_manager: &TabManager, window_label: String) -> (result: CmdResult<
    Vec<Tab>,
>)
    ensures
        result matches Ok(list) && list@.map_values(|t: Tab| t@) == tab_manager@.tabs,
{
    Ok(tab_manager.get_tab_info_list(window_label))
}

/// Opens a tab and answers with its identifier as text, and with the command
/// that makes its surface.
///
/// Fails with the words for `WindowNotFound`, and changes nothing, exactly
/// where the window is missing.
pub fn create_tab_cmd(
    tab_manager: &mut TabManager,
    sidebars: &SidebarManager,
    window_label: String,
    window: Option<&WindowSnapshot>,
    url: String,
    name: String,
) -> (result: CmdResult<(String, SurfaceCommand)>)
    requires
        old(tab_manager)@.wf(),
    ensures
        final(tab_manager)@.wf(),
        match result {
            Ok((text, make)) => {
                let id = make.target;
                &&& text@ == uuid_text(id.value)
                &&& parsed_tab_id(uuid_parse(text@)) == Ok::<TabId, TabError>(id)
                &&& !old(tab_manager)@.has_tab(id)
                &&& old(tab_manager)@.create_result(
                    sidebars@,
                    window_label@,
                    window_view(window),
                    id,
                    url@,
                ) == Ok::<(TabId, SurfaceCommandView), TabError>((id, make@))
                &&& final(tab_manager)@ == old(tab_manager)@.after_create(
                    window_view(window),
                    id,
                    url@,
                    name@,
                )
            },
            Err(text) => {
                &&& window is None
                &&& text@ == TabError::WindowNotFound.message_spec()
                &&& final(tab_manager)@ == old(tab_manager)@
            },
        },
        window is Some ==> result is Ok,
{
    match tab_manager.create_tab(
        sidebars,
        window_label.as_str(),
        window,
        url.as_str(),
        name.as_str(),
    ) {
        Ok((id, make)) => Ok((id.to_text(), make)),
        Err(failure) => Err(failure.message()),
    }
}

/// What the switch command answers, before the failure is put into words.
pub open spec fn switch_tab_result(
    v: TabManagerView,
    sidebars: Map<Seq<char>, SidebarState>,
    window_label: Seq<char>,
    window: Option<WindowSnapshotView>,
    tab_id: Seq<char>,
) -> Result<Seq<SurfaceCommandView>, TabError> {
    match parsed_tab_id(uuid_parse(tab_id)) {
        Err(failure) => Err(failure),
        Ok(id) => match v.switch_result(sidebars, window_label, window, id) {
            Ok((_, commands)) => Ok(commands),
            Err(failure) => Err(failure),
        },
    }
}

/// The record after the switch command.
pub open spec fn after_switch_tab(
    v: TabManagerView,
    window: Option<WindowSnapshotView>,
    tab_id: Seq<char>,
) -> TabManagerView {
    match parsed_tab_id(uuid_parse(tab_id)) {
        Err(_) => v,
        Ok(id) => v.after_switch(window, id),
    }
}

/// Makes the tab named by `tab_id` the active one and answers with the
/// commands for the host.
///
/// Fails with the words for `InvalidIdentifier` where `tab_id` is no
/// identifier, and as the switch itself fails otherwise.
pub fn switch_tab_cmd(
    tab_manager: &mut TabManager,
    sidebars: &SidebarManager,
    window_label: String,
    window: Option<&WindowSnapshot>,
    tab_id: String,
) -> (result: CmdResult<Vec<SurfaceCommand>>)
    requires
        old(tab_manager)@.wf(),
    ensures
        final(tab_manager)@.wf(),
        commands_answer_view(result) == stringified(
            switch_tab_result(
                old(tab_manager)@,
                sidebars@,
                window_label@,
                window_view(window),
                tab_id@,
            ),
        ),
        final(tab_manager)@ == after_switch_tab(old(tab_manager)@, window_view(window), tab_id@),
{
    let id = match TabId::parse(tab_id.as_str()) {
        Ok(id) => id,
        Err(failure) => {
            return Err(failure.message());
        },
    };
    match tab_manager.switch_tab(sidebars, window_label.as_str(), window, id) {
        Ok((_, commands)) => Ok(commands),
        Err(failure) => Err(failure.message()),
    }
}

/// What the close command answers, before the failure is put into words.
pub open spec fn close_tab_result(
    v: TabManagerView,
    window: Option<WindowSnapshotView>,
    tab_id: Seq<char>,
) -> Result<SurfaceCommandView, TabError> {
    match parsed_tab_id(uuid_parse(tab_id)) {
        Err(failure) => Err(failure),
        Ok(id) => v.close_result(window, id),
    }
}

/// The record after the close command.
pub open spec fn after_close_tab(
    v: TabManagerView,
    window: Option<WindowSnapshotView>,
    tab_id: Seq<char>,
) -> TabManagerView {
    match parsed_tab_id(uuid_parse(tab_id)) {
        Err(_) => v,
        Ok(id) => v.after_close(window, id),
    }
}

/// Closes the tab named by `tab_id` and answers with the command that closes
/// its surface.
///
/// Fails with the words for `InvalidIdentifier` where `tab_id` is no
/// identifier, and with those for `WindowNotFound` where the window is
/// missing.
pub fn close_tab_cmd(
    tab_manager: &mut TabManager,
    window: Option<&WindowSnapshot>,
    tab_id: String,
) -> (result: CmdResult<SurfaceCommand>)
    requires
        old(tab_manager)@.wf(),
    ensures
        final(tab_manager)@.wf(),
        command_answer_view(result) == stringified(
            close_tab_result(old(tab_manager)@, window_view(window), tab_id@),
        ),
        final(tab_manager)@ == after_close_tab(old(tab_manager)@, window_view(window), tab_id@),
{
    let id = match TabId::parse(tab_id.as_str()) {
        Ok(id) => id,
        Err(failure) => {
            return Err(failure.message());
        },
    };
    match tab_manager.close_tab(window, id) {
        Ok(close) => Ok(close),
        Err(failure) => Err(failure.message()),
    }
}

/// Sends the tab named by `tab_id` to `url`, or reloads it where no address
/// is given, and answers with the command for its surface.
///
/// Fails with the words for `InvalidIdentifier` where `tab_id` is no
/// identifier, and as the navigation itself fails otherwise.
pub fn navigate_tab_cmd(
    tab_manager: &TabManager,
    window: Option<&WindowSnapshot>,
    tab_id: String,
    url: Option<String>,
) -> (result: CmdResult<SurfaceCommand>)
    ensures
        command_answer_view(result) == stringified(
            navigate_tab_result(
                window_view(window),
                tab_id@,
                match url {
                    Some(address) => Some(address@),
                    None => None,
                },
            ),
        ),
{
    let id = match TabId::parse(tab_id.as_str()) {
        Ok(id) => id,
        Err(failure) => {
            return Err(failure.message());
        },
    };
    let request = navigation_for_url(url);
    match tab_manager.navigate(window, id, request) {
        Ok(c) => Ok(c),
        Err(failure) => Err(failure.message()),
    }
}

/// Moves the tab named by `tab_id` through its history: `-1` goes back, `0`
/// reloads, `1` goes forward. Answers with the command for its surface.
///
/// Fails with the words for `InvalidIdentifier` where `tab_id` is no
/// identifier, else with those for `InvalidNavigationAction` where `action`
/// is no direction, and as the navigation itself fails otherwise.
pub fn tab_history_cmd(
    tab_manager: &TabManager,
    window: Option<&WindowSnapshot>,
    tab_id: String,
    action: i8,
) -> (result: CmdResult<SurfaceCommand>)
    ensures
        command_answer_view(result) == stringified(
            tab_history_result(window_view(window), tab_id@, action),
        ),
{
    let id = match TabId::parse(tab_id.as_str()) {
        Ok(id) => id,
        Err(failure) => {
            return Err(failure.message());
        },
    };
    let request = match navigation_for_code(action) {
        Ok(request) => request,
        Err(failure) => {
            return Err(failure.message());
        },
    };
    match tab_manager.navigate(window, id, request) {
        Ok(c) => Ok(c),
        Err(failure) => Err(failure.message()),
    }
}

/// A history direction other than `-1`, `0` and `1` is refused, whatever the
/// window looks like, as long as the identifier is well-formed.
pub proof fn lemma_unknown_direction_refused(
    window: Option<WindowSnapshotView>,
    tab_id: Seq<char>,
    action: i8,
)
    requires
        uuid_parse(tab_id) is Some,
        action != -1 && action != 0 && action != 1,
    ensures
        tab_history_result(window, tab_id, action) == Err::<SurfaceCommandView, TabError>(
            TabError::InvalidNavigationAction,
        ),
{
}

} // verus!
