//! Reading the alert level that the status page states.

use crate::decimal::{read_u8, read_within};
use crate::matcher::Patterns;
use crate::text::chars_of;
use vstd::prelude::*;

verus! {

/// The level that stands for "no level published yet".
pub const UNKNOWN_LEVEL: u8 = 0;

/// What the digits found on a page say: no digits mean the unknown level;
/// digits that are no number up to 255 say nothing.
pub open spec fn level_from(digits: Option<Seq<char>>) -> Option<nat> {
    match digits {
        None => Some(UNKNOWN_LEVEL as nat),
        Some(text) => read_within(text, 255),
    }
}

/// The level that `content` states.
pub open spec fn published_level(patterns: Patterns, content: Seq<char>) -> Option<nat> {
    level_from(patterns.level_digits(content))
}

/// Reads the level from the digits found on a page, if any were found.
pub fn read_level(digits: Option<&str>) -> (r: Option<u8>)
    ensures
        r is Some <==> level_from(digits.deep_view()) is Some,
        r matches Some(level) ==> level_from(digits.deep_view()) == Some(level as nat),
{
    match digits {
        None => Some(UNKNOWN_LEVEL),
        Some(text) => {
            let chars = chars_of(text);
            read_u8(chars.as_slice())
        },
    }
}

/// Reads the level that the content of the status page states. A page that
/// states none gives the unknown level; a page that states one that is no
/// number up to 255 gives nothing.
pub fn parse_published_level(patterns: &Patterns, content: &str) -> (r: Option<u8>)
    ensures
        r is Some <==> published_level(*patterns, content@) is Some,
        r matches Some(level) ==> published_level(*patterns, content@) == Some(level as nat),
{
    match patterns.find_level_digits(content) {
        Some(digits) => read_level(Some(digits.as_str())),
        None => read_level(None),
    }
}

} // verus!
