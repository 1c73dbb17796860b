//! Monospace font fallback per operating system.

use vstd::prelude::*;
use crate::text::str_eq;

verus! {

/// The monospace family installed on every system of the given kind.
pub open spec fn spec_monospace_family(os: Seq<char>) -> Seq<char> {
    if os == "macos"@ {
        "Menlo"@
    } else if os == "windows"@ {
        "Consolas"@
    } else {
        "monospace"@
    }
}

/// Returns the best available monospace font family for an operating
/// system named as `std::env::consts::OS` names it: Menlo on macOS,
/// Consolas on Windows, the fontconfig alias `monospace` elsewhere.
pub fn default_monospace_family(os: &str) -> (r: &'static str)
    ensures
        r@ == spec_monospace_family(os@),
{
    if str_eq(os, "macos") {
        "Menlo"
    } else if str_eq(os, "windows") {
        "Consolas"
    } else {
        "monospace"
    }
}

} // verus!
