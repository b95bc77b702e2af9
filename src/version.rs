//! Which version token is handed to the installer for a declared constraint.

use vstd::prelude::*;
use crate::text::{same_text, starts_with_char};

verus! {

/// A constraint that begins with one of the range operators `^ ~ > <`.
pub open spec fn is_range(c: Seq<char>) -> bool {
    c.len() > 0 && (c[0] == '^' || c[0] == '~' || c[0] == '>' || c[0] == '<')
}

/// The token installed for constraint `c`: `latest` for the keywords `latest`
/// and `stable` and for every range, and `c` itself for an exact version.
pub open spec fn resolved_version(c: Seq<char>) -> Seq<char> {
    if c == "latest"@ || c == "stable"@ || is_range(c) {
        "latest"@
    } else {
        c
    }
}

/// The version token to install for `constraint`. Ranges are not solved
/// against the available versions: every range gives `latest`.
pub fn resolve_version(constraint: &str) -> (r: String)
    ensures
        r@ == resolved_version(constraint@),
{
    if same_text(constraint, "latest") || same_text(constraint, "stable") {
        String::from_str("latest")
    } else if starts_with_char(constraint, '^') || starts_with_char(constraint, '~')
        || starts_with_char(constraint, '>') || starts_with_char(constraint, '<') {
        String::from_str("latest")
    } else {
        String::from_str(constraint)
    }
}

} // verus!
