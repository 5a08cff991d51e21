//! What a new surface is made with.

use crate::navigation::{normalize_url, url_serialization};
use vstd::prelude::*;

verus! {

/// The address a surface opens where the one asked for is malformed.
pub const FALLBACK_URL: &'static str = "https://example.com";

/// The user agent every surface presents: that of a desktop browser.
pub const DESKTOP_USER_AGENT: &'static str =
    "Mozilla/5.0 (Macintosh; Intel Mac OS X 10_15_7) AppleWebKit/537.36 (KHTML, like Gecko) Chrome/121.0.0.0 Safari/537.36";

/// The address a new surface opens for a tab that asks for `url`: `url` in
/// normal form, or the fallback address where `url` is malformed.
pub open spec fn opening_url(url: Seq<char>) -> Seq<char> {
    match url_serialization(url) {
        Some(normal) => normal,
        None => FALLBACK_URL@,
    }
}

/// Picks the address a new surface opens, given the address asked for in
/// normal form, or `None` for a malformed one.
pub fn opening_url_of(normal: Option<String>) -> (address: String)
    ensures
        address@ == match normal {
            Some(text) => text@,
            None => FALLBACK_URL@,
        },
{
    match normal {
        Some(text) => text,
        None => FALLBACK_URL.to_owned(),
    }
}

/// The address a new surface opens for a tab that asks for `url`.
pub fn surface_url(url: &str) -> (address: String)
    ensures
        address@ == opening_url(url@),
{
    opening_url_of(normalize_url(url))
}

/// The user agent every surface presents.
pub fn get_desktop_user_agent() -> (agent: String)
    ensures
        agent@ == DESKTOP_USER_AGENT@,
{
    DESKTOP_USER_AGENT.to_owned()
}

} // verus!
