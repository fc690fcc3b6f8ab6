use crate::color;
use crate::lcd_types::{spec_default_config, Config};
use vstd::prelude::*;

verus! {

/// The colours of an application.
#[derive(Debug, Clone, Copy, PartialEq, Eq, Structural)]
pub struct Theme {
    pub background: u16,
    pub on_background: u16,
    pub primary: u16,
    pub on_primary: u16,
    pub secondary: u16,
    pub on_secondary: u16,
}

/// White background, black text and borders, blue accent with white on it.
pub open spec fn spec_default_theme() -> Theme {
    Theme {
        background: color::WHITE,
        on_background: color::BLACK,
        primary: color::BLACK,
        on_primary: color::WHITE,
        secondary: color::BLUE,
        on_secondary: color::WHITE,
    }
}

impl Default for Theme {
    fn default() -> (r: Self)
        ensures
            r == spec_default_theme(),
    {
        Theme {
            background: color::WHITE,
            on_background: color::BLACK,
            primary: color::BLACK,
            on_primary: color::WHITE,
            secondary: color::BLUE,
            on_secondary: color::WHITE,
        }
    }
}

/// What "back" does when only one page is left.
#[derive(Debug, Clone, Copy, PartialEq, Eq, Structural)]
pub enum LastPagePolicy {
    /// Leave the run loop.
    ExitApp,
    /// Do nothing.
    IgnoreBack,
}

/// Application settings.
#[derive(Debug, Clone, Copy, PartialEq, Eq, Structural)]
pub struct AppConfig {
    pub theme: Theme,
    pub last_page_policy: LastPagePolicy,
    pub backend: Config,
}

impl Default for AppConfig {
    /// The default theme, exiting on back from the last page, and the
    /// documented display defaults of `Config::default` (not the driver's own
    /// defaults, which the application layer reads from the hardware).
    fn default() -> (r: Self)
        ensures
            r.theme == spec_default_theme(),
            r.last_page_policy == LastPagePolicy::ExitApp,
            r.backend == spec_default_config(),
    {
        AppConfig {
            theme: Theme::default(),
            last_page_policy: LastPagePolicy::ExitApp,
            backend: Config::default(),
        }
    }
}

} // verus!
