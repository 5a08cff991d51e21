//! Tab identifiers.
//!
//! A tab is known by a 128-bit identifier. The same identifier, written as
//! text, labels the surface that shows the tab, so a tab and its surface are
//! found from one another without a table in between.

use crate::error::TabError;
use vstd::arithmetic::power::pow;
use vstd::prelude::*;

verus! {

/// `uuid::Error`, the parser's complaint. Nothing is read from it.
#[verifier::external_type_specification]
#[verifier::external_body]
pub struct ExUuidError(uuid::Error);

/// The identifier that `uuid::Uuid::parse_str` reads from `text`, as a 128-bit
/// number; `None` where it rejects the text.
pub uninterp spec fn uuid_parse(text: Seq<char>) -> Option<u128>;

/// The sixteen hexadecimal digits, in lower case.
pub open spec fn hex_digits() -> Seq<char> {
    seq!['0', '1', '2', '3', '4', '5', '6', '7', '8', '9', 'a', 'b', 'c', 'd', 'e', 'f']
}

/// The `k`-th of the 32 hexadecimal digits of `value`, counted from the most
/// significant one.
pub open spec fn hex_digit(value: u128, k: int) -> char {
    hex_digits()[(value as int / pow(16, (31 - k) as nat)) % 16]
}

/// How many hyphens stand before place `i` of an identifier's text.
pub open spec fn hyphens_before(i: int) -> int {
    if i < 8 {
        0
    } else if i < 13 {
        1
    } else if i < 18 {
        2
    } else if i < 23 {
        3
    } else {
        4
    }
}

/// The text that `uuid::Uuid` displays for the identifier `value`: its 32
/// hexadecimal digits in lower case, most significant first, in groups of 8,
/// 4, 4, 4 and 12 with a hyphen between the groups.
pub open spec fn uuid_text(value: u128) -> Seq<char> {
    Seq::new(
        36,
        |i: int|
            if i == 8 || i == 13 || i == 18 || i == 23 {
                '-'
            } else {
                hex_digit(value, i - hyphens_before(i))
            },
    )
}

/// The identifier of a tab.
#[derive(Clone, Copy, Debug, PartialEq, Eq, Hash, Structural)]
pub struct TabId {
    pub value: u128,
}

/// Whether `value` has the form of a random identifier: version four of the
/// variant that RFC 9562 describes.
pub open spec fn random_form(value: u128) -> bool {
    value & 0x0000_0000_0000_f000_c000_0000_0000_0000 == 0x0000_0000_0000_4000_8000_0000_0000_0000
}

/// Calls `uuid::Uuid::new_v4` and returns the identifier as a number.
///
/// The identifier is random. Claimed is only what holds of every outcome:
/// the version and variant bits, which the call sets itself. The call panics
/// where the operating system hands out no random bytes.
#[verifier::external_body]
fn uuid_random() -> (value: u128)
    ensures
        random_form(value),
{
    uuid::Uuid::new_v4().as_u128()
}

/// Calls `uuid::Uuid::parse_str`.
///
/// Claims only that the outcome is the one named `uuid_parse`: the parser
/// reads nothing but its input.
#[verifier::external_body]
fn uuid_parse_str(text: &str) -> (parsed: Result<u128, uuid::Error>)
    ensures
        match parsed {
            Ok(value) => uuid_parse(text@) == Some(value),
            Err(_) => uuid_parse(text@) is None,
        },
{
    match uuid::Uuid::parse_str(text) {
        Ok(id) => Ok(id.as_u128()),
        Err(e) => Err(e),
    }
}

/// Calls `to_string` on the `uuid::Uuid` made of `value`.
///
/// Claims that the text is the hyphenated lower-case form that `uuid_text`
/// spells out, and that `uuid::Uuid::parse_str` reads the same identifier
/// back from it: the parser accepts that form.
#[verifier::external_body]
fn uuid_to_string(value: u128) -> (text: String)
    ensures
        text@ == uuid_text(value),
        uuid_parse(text@) == Some(value),
{
    uuid::Uuid::from_u128(value).to_string()
}

/// What reading an identifier from text comes to, given what the parser said.
pub open spec fn parsed_tab_id(parsed: Option<u128>) -> Result<TabId, TabError> {
    match parsed {
        Some(value) => Ok(TabId { value }),
        None => Err(TabError::InvalidIdentifier),
    }
}

/// The `k`-th identifier after `seed`, counting round past the largest one.
pub open spec fn probe(seed: TabId, k: int) -> TabId {
    TabId { value: ((seed.value + k) % (u128::MAX + 1)) as u128 }
}

/// Counting on by one from the `k`-th identifier after `seed` gives the
/// next one after `seed`.
pub proof fn lemma_probe_step(seed: TabId, k: int)
    requires
        0 <= k,
    ensures
        probe(seed, 0) == seed,
        probe(seed, k + 1) == probe(probe(seed, k), 1),
{
    let m: int = u128::MAX + 1;
    let a = seed.value + k;
    assert((a % m + 1) % m == (a + 1) % m) by (nonlinear_arith)
        requires
            m > 0,
            a >= 0,
    ;
}

impl TabId {
    /// A random identifier.
    pub fn random() -> (id: TabId)
        ensures
            random_form(id.value),
    {
        TabId { value: uuid_random() }
    }

    /// The identifier that follows this one; after the largest comes zero.
    pub fn successor(&self) -> (next: TabId)
        ensures
            next == probe(*self, 1),
    {
        TabId { value: self.value.wrapping_add(1) }
    }

    /// Turns what the identifier parser said into a tab identifier or a
    /// failure.
    pub fn from_parsed(parsed: Option<u128>) -> (id: Result<TabId, TabError>)
        ensures
            id == parsed_tab_id(parsed),
    {
        match parsed {
            Some(value) => Ok(TabId { value }),
            None => Err(TabError::InvalidIdentifier),
        }
    }

    /// Reads an identifier from text.
    ///
    /// Fails with `InvalidIdentifier` exactly where the text is not an
    /// identifier.
    pub fn parse(text: &str) -> (id: Result<TabId, TabError>)
        ensures
            id == parsed_tab_id(uuid_parse(text@)),
    {
        match uuid_parse_str(text) {
            Ok(value) => TabId::from_parsed(Some(value)),
            Err(_) => TabId::from_parsed(None),
        }
    }

    /// Writes the identifier as text. Reading the text gives the identifier
    /// back.
    pub fn to_text(&self) -> (text: String)
        ensures
            text@ == uuid_text(self.value),
            parsed_tab_id(uuid_parse(text@)) == Ok::<TabId, TabError>(*self),
    {
        uuid_to_string(self.value)
    }
}

} // verus!
