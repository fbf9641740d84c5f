//! Theme settings and the database contexts listed in the settings file.

use vstd::prelude::*;
use vstd::string::*;

verus! {

/// Light, dark, or following the system.
#[derive(Clone, Copy, Debug, PartialEq, Eq, Structural)]
pub enum ThemeMode {
    Light,
    Dark,
    System,
}

/// The mode after `m` in the cycle light, dark, system.
pub open spec fn next_mode(m: ThemeMode) -> ThemeMode {
    match m {
        ThemeMode::Light => ThemeMode::Dark,
        ThemeMode::Dark => ThemeMode::System,
        ThemeMode::System => ThemeMode::Light,
    }
}

impl ThemeMode {
    /// The next mode in the cycle light, dark, system.
    pub fn next(&self) -> (r: Self)
        ensures
            r == next_mode(*self),
    {
        match self {
            ThemeMode::Light => ThemeMode::Dark,
            ThemeMode::Dark => ThemeMode::System,
            ThemeMode::System => ThemeMode::Light,
        }
    }

    /// The name of the icon shown for the mode.
    pub fn icon_name(&self) -> (r: &'static str)
        ensures
            *self == ThemeMode::Light ==> r@ == "sun"@,
            *self == ThemeMode::Dark ==> r@ == "moon"@,
            *self == ThemeMode::System ==> r@ == "monitor"@,
    {
        match self {
            ThemeMode::Light => "sun",
            ThemeMode::Dark => "moon",
            ThemeMode::System => "monitor",
        }
    }

    /// The tooltip of the theme toggle for the mode.
    pub fn tooltip(&self) -> (r: &'static str)
        ensures
            *self == ThemeMode::Light ==> r@ == "Light mode"@,
            *self == ThemeMode::Dark ==> r@ == "Dark mode"@,
            *self == ThemeMode::System ==> r@ == "System mode"@,
    {
        match self {
            ThemeMode::Light => "Light mode",
            ThemeMode::Dark => "Dark mode",
            ThemeMode::System => "System mode",
        }
    }
}

impl Default for ThemeMode {
    fn default() -> (r: Self)
        ensures
            r == ThemeMode::System,
    {
        ThemeMode::System
    }
}

/// The names of the light and dark themes, and the mode in use.
pub struct ThemeSettings {
    pub light: String,
    pub dark: String,
    pub mode: ThemeMode,
}

/// The light theme used when the settings name none.
pub fn default_light_theme() -> (r: String)
    ensures
        r@ == "Default Light"@,
{
    String::from_str("Default Light")
}

/// The dark theme used when the settings name none.
pub fn default_dark_theme() -> (r: String)
    ensures
        r@ == "Default Dark"@,
{
    String::from_str("Default Dark")
}

impl Default for ThemeSettings {
    fn default() -> (r: Self)
        ensures
            r.light@ == "Default Light"@,
            r.dark@ == "Default Dark"@,
            r.mode == ThemeMode::System,
    {
        ThemeSettings {
            light: default_light_theme(),
            dark: default_dark_theme(),
            mode: ThemeMode::System,
        }
    }
}

/// The window's title bar, whose button cycles the theme mode.
pub struct TitleBar;

impl TitleBar {
    pub fn new() -> (r: Self) {
        TitleBar
    }

    /// Moves the theme to the next mode; the theme names stay.
    pub fn cycle_theme_mode(&mut self, settings: &mut ThemeSettings)
        ensures
            final(settings).mode == next_mode(old(settings).mode),
            final(settings).light == old(settings).light,
            final(settings).dark == old(settings).dark,
    {
        settings.mode = settings.mode.next();
    }
}

/// A database on this machine.
pub struct LocalDatabase {
    pub name: String,
    pub path: String,
}

/// A database reached over the network.
pub struct RemoteDatabase {
    pub name: String,
    pub url: String,
}

/// A database context listed in the settings; `Unknown` for an entry of
/// another kind.
pub enum DbContext {
    Local(LocalDatabase),
    Remote(RemoteDatabase),
    Unknown,
}

} // verus!
