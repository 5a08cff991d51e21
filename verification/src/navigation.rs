//! Turning a navigation request into an instruction for a surface.

use crate::error::TabError;
use crate::surface::{SurfaceAction, SurfaceActionView};
use vstd::prelude::*;

verus! {

/// `url::ParseError`, the parser's complaint. Nothing is read from it.
#[verifier::external_type_specification]
#[verifier::external_body]
pub struct ExUrlParseError(url::ParseError);

/// The serialization of the absolute URL that `url::Url::parse` reads from
/// `text`; `None` where it rejects the text.
pub uninterp spec fn url_serialization(text: Seq<char>) -> Option<Seq<char>>;

/// Calls `url::Url::parse` and hands out the URL as its serialization.
///
/// Claims only that the outcome is the one named `url_serialization`: the
/// parser reads nothing but its input.
#[verifier::external_body]
fn url_parse(text: &str) -> (parsed: Result<String, url::ParseError>)
    ensures
        match parsed {
            Ok(serialization) => url_serialization(text@) == Some(serialization@),
            Err(_) => url_serialization(text@) is None,
        },
{
    match url::Url::parse(text) {
        Ok(url) => Ok(String::from(url)),
        Err(e) => Err(e),
    }
}

/// What a caller asks a tab to do.
#[derive(Debug, Clone)]
pub enum TabNavigation {
    /// Go one step back in the history.
    Back,
    /// Load the current page again.
    Reload,
    /// Go one step forward in the history.
    Forward,
    /// Go to the given address.
    NavigateTo(String),
}

/// The mathematical content of a [`TabNavigation`].
pub enum TabNavigationView {
    Back,
    Reload,
    Forward,
    NavigateTo(Seq<char>),
}

impl View for TabNavigation {
    type V = TabNavigationView;

    open spec fn view(&self) -> TabNavigationView {
        match self {
            TabNavigation::Back => TabNavigationView::Back,
            TabNavigation::Reload => TabNavigationView::Reload,
            TabNavigation::Forward => TabNavigationView::Forward,
            TabNavigation::NavigateTo(url) => TabNavigationView::NavigateTo(url@),
        }
    }
}

/// What going to an address comes to on a surface that shows `current`,
/// where `parsed` is the address in normal form, or `None` for a malformed
/// one, and `current` is `None` where the surface's address cannot be read.
///
/// A malformed address fails with `UrlParseError`. Otherwise, where the
/// surface does not tell what it shows, the surface has failed, and the
/// request fails with `SurfaceOperationFailed`. An address equal to the one
/// on show is loaded again rather than navigated to, so that the history
/// gets no second entry for it.
pub open spec fn navigate_to_result(parsed: Option<Seq<char>>, current: Option<Seq<char>>) -> Result<
    SurfaceActionView,
    TabError,
> {
    match parsed {
        None => Err(TabError::UrlParseError),
        Some(url) => match current {
            None => Err(TabError::SurfaceOperationFailed),
            Some(shown) => if url == shown {
                Ok(SurfaceActionView::Reload)
            } else {
                Ok(SurfaceActionView::Navigate { url })
            },
        },
    }
}

/// The mathematical content of an address that may be missing.
pub open spec fn address_view(address: Option<String>) -> Option<Seq<char>> {
    match address {
        Some(text) => Some(text@),
        None => None,
    }
}

/// What a request comes to on a surface that shows `current`, or whose
/// address cannot be read where `current` is `None`.
pub open spec fn navigation_result(request: TabNavigationView, current: Option<Seq<char>>) -> Result<
    SurfaceActionView,
    TabError,
> {
    match request {
        TabNavigationView::Back => Ok(SurfaceActionView::HistoryBack),
        TabNavigationView::Reload => Ok(SurfaceActionView::Reload),
        TabNavigationView::Forward => Ok(SurfaceActionView::HistoryForward),
        TabNavigationView::NavigateTo(url) => navigate_to_result(url_serialization(url), current),
    }
}

/// The mathematical content of an action or the failure to come by one.
pub open spec fn action_result_view(result: Result<SurfaceAction, TabError>) -> Result<
    SurfaceActionView,
    TabError,
> {
    match result {
        Ok(action) => Ok(action@),
        Err(e) => Err(e),
    }
}

/// Brings an address into normal form.
///
/// Returns `None` exactly where the address is malformed.
pub fn normalize_url(url: &str) -> (normal: Option<String>)
    ensures
        normal is Some <==> url_serialization(url@) is Some,
        normal matches Some(text) ==> url_serialization(url@) == Some(text@),
{
    match url_parse(url) {
        Ok(serialization) => Some(serialization),
        Err(_) => None,
    }
}

/// Decides how a surface goes to an address, given the address in normal
/// form, or `None` for a malformed one, and the address the surface shows,
/// or `None` where the host could not read it.
pub fn navigate_to(parsed: Option<String>, current: &Option<String>) -> (result: Result<
    SurfaceAction,
    TabError,
>)
    ensures
        action_result_view(result) == navigate_to_result(
            address_view(parsed),
            address_view(*current),
        ),
{
    match parsed {
        None => Err(TabError::UrlParseError),
        Some(url) => match current {
            None => Err(TabError::SurfaceOperationFailed),
            Some(shown) => {
                if url == *shown {
                    Ok(SurfaceAction::Reload)
                } else {
                    Ok(SurfaceAction::Navigate { url })
                }
            },
        },
    }
}

/// Decides what a surface is told to do for `request`, given the address it
/// shows, or `None` where the host could not read it.
///
/// Back, forward and reload are handed on as they are. Going to an address
/// fails with `UrlParseError` where the address is malformed, else with
/// `SurfaceOperationFailed` where the surface's address could not be read;
/// it reloads where the surface already shows the address, and navigates
/// otherwise.
pub fn apply(request: TabNavigation, current: &Option<String>) -> (result: Result<
    SurfaceAction,
    TabError,
>)
    ensures
        action_result_view(result) == navigation_result(request@, address_view(*current)),
{
    match request {
        TabNavigation::Back => Ok(SurfaceAction::HistoryBack),
        TabNavigation::Reload => Ok(SurfaceAction::Reload),
        TabNavigation::Forward => Ok(SurfaceAction::HistoryForward),
        TabNavigation::NavigateTo(url) => {
            let parsed = normalize_url(url.as_str());
            navigate_to(parsed, current)
        },
    }
}

/// Going to the address a surface already shows reloads it.
pub proof fn lemma_same_url_reloads(url: Seq<char>, current: Seq<char>)
    requires
        url_serialization(url) == Some(current),
    ensures
        navigation_result(TabNavigationView::NavigateTo(url), Some(current)) == Ok::<
            SurfaceActionView,
            TabError,
        >(SurfaceActionView::Reload),
{
}

/// Going to a well-formed address on a surface that does not tell what it
/// shows fails, as a failure of the surface. What the history asks for and a
/// reload need no address and are handed on all the same.
pub proof fn lemma_unreadable_address_fails(request: TabNavigationView)
    ensures
        match request {
            TabNavigationView::NavigateTo(url) => navigation_result(request, None) == (
            if url_serialization(url) is Some {
                Err::<SurfaceActionView, TabError>(TabError::SurfaceOperationFailed)
            } else {
                Err::<SurfaceActionView, TabError>(TabError::UrlParseError)
            }),
            _ => navigation_result(request, None) is Ok,
        },
{
}

} // verus!
