//! The settings of the command-line launcher.

use vstd::prelude::*;

verus! {

/// The command-line launcher's settings: the theme only.
#[derive(Debug)]
pub struct AppConfig {
    pub dark: bool,
}

impl Default for AppConfig {
    /// The light theme.
    fn default() -> (r: Self)
        ensures
            !r.dark,
    {
        AppConfig { dark: false }
    }
}

} // verus!
