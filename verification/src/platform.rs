//! The host platform, as far as the rules of this library depend on it.

use vstd::prelude::*;

verus! {

/// The family of operating system that the front end runs on.
#[derive(Clone, Copy, Debug, PartialEq, Eq, Structural)]
pub enum Platform {
    /// Windows: consoles print in the legacy code page.
    Windows,
    /// Linux and macOS: consoles print UTF-8.
    Unix,
}

} // verus!
