//! The persisted user preferences. Loading and saving the preference file is
//! the shell's work; a load that fails in any way falls back to this default.

use vstd::prelude::*;
use crate::theme::GruvboxTheme;

verus! {

/// The preference record: only the chosen theme.
#[derive(Debug, Clone, Copy, PartialEq, Eq, Structural)]
pub struct AppConfig {
    pub theme: GruvboxTheme,
}

impl Default for AppConfig {
    /// The preferences a fresh or unreadable file yields.
    fn default() -> (c: Self)
        ensures
            c.theme == GruvboxTheme::Dark,
    {
        AppConfig { theme: GruvboxTheme::Dark }
    }
}

} // verus!
