//! Where a plugin's repository is fetched from.

use vstd::prelude::*;
use crate::text::{is_prefix, same_text, starts_with};

verus! {

/// Repository of a plugin maintained by the version manager's own organisation.
pub open spec fn official_url(name: Seq<char>) -> Seq<char> {
    "https://github.com/asdf-vm/asdf-"@ + name + ".git"@
}

/// Repository of a plugin maintained in the hyperpolymath ecosystem; also the
/// fallback for any source keyword that is not recognised.
pub open spec fn ecosystem_url(name: Seq<char>) -> Seq<char> {
    "https://github.com/hyperpolymath/asdf-"@ + name + "-plugin.git"@
}

/// The repository URL for plugin `name` declared with source `source`.
pub open spec fn plugin_source(name: Seq<char>, source: Seq<char>) -> Seq<char> {
    if source == "official"@ {
        official_url(name)
    } else if source == "hyperpolymath"@ {
        ecosystem_url(name)
    } else if is_prefix("http"@, source) {
        source
    } else {
        ecosystem_url(name)
    }
}

/// The repository URL for plugin `name` declared with source `source`:
/// `official` and `hyperpolymath` are keywords, anything that begins with
/// `http` is taken as a URL, and anything else falls back to the ecosystem
/// repository. Defined on every pair of strings.
pub fn get_plugin_source(name: &str, source: &str) -> (r: String)
    ensures
        r@ == plugin_source(name@, source@),
{
    if same_text(source, "official") {
        String::from_str("https://github.com/asdf-vm/asdf-").concat(name).concat(".git")
    } else if same_text(source, "hyperpolymath") {
        String::from_str("https://github.com/hyperpolymath/asdf-").concat(name).concat(
            "-plugin.git",
        )
    } else if starts_with(source, "http") {
        String::from_str(source)
    } else {
        String::from_str("https://github.com/hyperpolymath/asdf-").concat(name).concat(
            "-plugin.git",
        )
    }
}

} // verus!
