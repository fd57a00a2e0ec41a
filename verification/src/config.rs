//! User settings and the colour themes they can choose.
use iced::theme::Custom as IcedCustomTheme;
use iced::Theme as IcedTheme;
use vstd::prelude::*;

verus! {

/// Number of themes built into iced.
pub const BUILTIN_THEME_COUNT: usize = 22;

/// Colour theme chosen by the user: the system theme, or one of the themes
/// built into iced, in the order iced lists them.
#[derive(Clone, Copy, PartialEq, Eq, Structural, Debug)]
pub enum Theme {
    /// Follow the system theme.
    System,
    /// The built-in iced themes.
    Light,
    Dark,
    Dracula,
    Nord,
    SolarizedLight,
    SolarizedDark,
    GruvboxLight,
    GruvboxDark,
    CatppuccinLatte,
    CatppuccinFrappe,
    CatppuccinMacchiato,
    CatppuccinMocha,
    TokyoNight,
    TokyoNightStorm,
    TokyoNightLight,
    KanagawaWave,
    KanagawaDragon,
    KanagawaLotus,
    Moonfly,
    Nightfly,
    Oxocarbon,
    Ferra,
}

impl Default for Theme {
    fn default() -> (t: Theme)
        ensures
            t == Theme::System,
    {
        Theme::System
    }
}

/// Position of `t` among the themes built into iced (`iced::Theme::ALL`);
/// the system theme has none.
pub open spec fn builtin_position(t: Theme) -> Option<int> {
    match t {
        Theme::System => None,
        Theme::Light => Some(0),
        Theme::Dark => Some(1),
        Theme::Dracula => Some(2),
        Theme::Nord => Some(3),
        Theme::SolarizedLight => Some(4),
        Theme::SolarizedDark => Some(5),
        Theme::GruvboxLight => Some(6),
        Theme::GruvboxDark => Some(7),
        Theme::CatppuccinLatte => Some(8),
        Theme::CatppuccinFrappe => Some(9),
        Theme::CatppuccinMacchiato => Some(10),
        Theme::CatppuccinMocha => Some(11),
        Theme::TokyoNight => Some(12),
        Theme::TokyoNightStorm => Some(13),
        Theme::TokyoNightLight => Some(14),
        Theme::KanagawaWave => Some(15),
        Theme::KanagawaDragon => Some(16),
        Theme::KanagawaLotus => Some(17),
        Theme::Moonfly => Some(18),
        Theme::Nightfly => Some(19),
        Theme::Oxocarbon => Some(20),
        Theme::Ferra => Some(21),
    }
}

/// The theme at `position` among the themes built into iced; the system
/// theme for no position, or for one past the built-in themes.
pub open spec fn theme_at(position: Option<int>) -> Theme {
    match position {
        None => Theme::System,
        Some(i) => if i == 0 {
            Theme::Light
        } else if i == 1 {
            Theme::Dark
        } else if i == 2 {
            Theme::Dracula
        } else if i == 3 {
            Theme::Nord
        } else if i == 4 {
            Theme::SolarizedLight
        } else if i == 5 {
            Theme::SolarizedDark
        } else if i == 6 {
            Theme::GruvboxLight
        } else if i == 7 {
            Theme::GruvboxDark
        } else if i == 8 {
            Theme::CatppuccinLatte
        } else if i == 9 {
            Theme::CatppuccinFrappe
        } else if i == 10 {
            Theme::CatppuccinMacchiato
        } else if i == 11 {
            Theme::CatppuccinMocha
        } else if i == 12 {
            Theme::TokyoNight
        } else if i == 13 {
            Theme::TokyoNightStorm
        } else if i == 14 {
            Theme::TokyoNightLight
        } else if i == 15 {
            Theme::KanagawaWave
        } else if i == 16 {
            Theme::KanagawaDragon
        } else if i == 17 {
            Theme::KanagawaLotus
        } else if i == 18 {
            Theme::Moonfly
        } else if i == 19 {
            Theme::Nightfly
        } else if i == 20 {
            Theme::Oxocarbon
        } else if i == 21 {
            Theme::Ferra
        } else {
            Theme::System
        },
    }
}

impl Theme {
    /// Position of this theme among the themes built into iced.
    pub fn builtin_index(self) -> (r: Option<usize>)
        ensures
            r matches Some(i) ==> builtin_position(self) == Some(i as int),
            r is None ==> builtin_position(self) is None,
    {
        match self {
            Theme::System => None,
            Theme::Light => Some(0),
            Theme::Dark => Some(1),
            Theme::Dracula => Some(2),
            Theme::Nord => Some(3),
            Theme::SolarizedLight => Some(4),
            Theme::SolarizedDark => Some(5),
            Theme::GruvboxLight => Some(6),
            Theme::GruvboxDark => Some(7),
            Theme::CatppuccinLatte => Some(8),
            Theme::CatppuccinFrappe => Some(9),
            Theme::CatppuccinMacchiato => Some(10),
            Theme::CatppuccinMocha => Some(11),
            Theme::TokyoNight => Some(12),
            Theme::TokyoNightStorm => Some(13),
            Theme::TokyoNightLight => Some(14),
            Theme::KanagawaWave => Some(15),
            Theme::KanagawaDragon => Some(16),
            Theme::KanagawaLotus => Some(17),
            Theme::Moonfly => Some(18),
            Theme::Nightfly => Some(19),
            Theme::Oxocarbon => Some(20),
            Theme::Ferra => Some(21),
        }
    }

    /// The theme at `position` among the themes built into iced.
    pub fn from_builtin_index(position: Option<usize>) -> (t: Theme)
        ensures
            t == theme_at(
                match position {
                    Some(i) => Some(i as int),
                    None => None,
                },
            ),
    {
        match position {
            Some(0) => Theme::Light,
            Some(1) => Theme::Dark,
            Some(2) => Theme::Dracula,
            Some(3) => Theme::Nord,
            Some(4) => Theme::SolarizedLight,
            Some(5) => Theme::SolarizedDark,
            Some(6) => Theme::GruvboxLight,
            Some(7) => Theme::GruvboxDark,
            Some(8) => Theme::CatppuccinLatte,
            Some(9) => Theme::CatppuccinFrappe,
            Some(10) => Theme::CatppuccinMacchiato,
            Some(11) => Theme::CatppuccinMocha,
            Some(12) => Theme::TokyoNight,
            Some(13) => Theme::TokyoNightStorm,
            Some(14) => Theme::TokyoNightLight,
            Some(15) => Theme::KanagawaWave,
            Some(16) => Theme::KanagawaDragon,
            Some(17) => Theme::KanagawaLotus,
            Some(18) => Theme::Moonfly,
            Some(19) => Theme::Nightfly,
            Some(20) => Theme::Oxocarbon,
            Some(21) => Theme::Ferra,
            _ => Theme::System,
        }
    }
}

/// Going to a position among the built-in themes and back gives the theme
/// one started from.
pub proof fn lemma_theme_position_round_trip(t: Theme)
    ensures
        theme_at(builtin_position(t)) == t,
{
}

/// Going from a position among the built-in themes to its theme and back
/// gives the position one started from; there are exactly
/// [`BUILTIN_THEME_COUNT`] of them.
pub proof fn lemma_position_theme_round_trip(i: int)
    requires
        0 <= i < BUILTIN_THEME_COUNT,
    ensures
        builtin_position(theme_at(Some(i))) == Some(i),
{
}

/// `iced::theme::Custom`, a theme of iced with a palette of its own; Verus
/// sees nothing inside it.
#[verifier::external_type_specification]
#[verifier::external_body]
pub struct ExIcedCustomTheme(IcedCustomTheme);

/// `iced::Theme`, the theme type of iced: one variant for each built-in
/// theme and one for a custom theme.
#[verifier::external_type_specification]
pub struct ExIcedTheme(IcedTheme);

/// The iced theme for `t`: none for the system theme, else the built-in
/// iced theme of the same name.
pub open spec fn iced_theme_of(t: Theme) -> Option<IcedTheme> {
    match t {
        Theme::System => None,
        Theme::Light => Some(IcedTheme::Light),
        Theme::Dark => Some(IcedTheme::Dark),
        Theme::Dracula => Some(IcedTheme::Dracula),
        Theme::Nord => Some(IcedTheme::Nord),
        Theme::SolarizedLight => Some(IcedTheme::SolarizedLight),
        Theme::SolarizedDark => Some(IcedTheme::SolarizedDark),
        Theme::GruvboxLight => Some(IcedTheme::GruvboxLight),
        Theme::GruvboxDark => Some(IcedTheme::GruvboxDark),
        Theme::CatppuccinLatte => Some(IcedTheme::CatppuccinLatte),
        Theme::CatppuccinFrappe => Some(IcedTheme::CatppuccinFrappe),
        Theme::CatppuccinMacchiato => Some(IcedTheme::CatppuccinMacchiato),
        Theme::CatppuccinMocha => Some(IcedTheme::CatppuccinMocha),
        Theme::TokyoNight => Some(IcedTheme::TokyoNight),
        Theme::TokyoNightStorm => Some(IcedTheme::TokyoNightStorm),
        Theme::TokyoNightLight => Some(IcedTheme::TokyoNightLight),
        Theme::KanagawaWave => Some(IcedTheme::KanagawaWave),
        Theme::KanagawaDragon => Some(IcedTheme::KanagawaDragon),
        Theme::KanagawaLotus => Some(IcedTheme::KanagawaLotus),
        Theme::Moonfly => Some(IcedTheme::Moonfly),
        Theme::Nightfly => Some(IcedTheme::Nightfly),
        Theme::Oxocarbon => Some(IcedTheme::Oxocarbon),
        Theme::Ferra => Some(IcedTheme::Ferra),
    }
}

/// The theme for an iced theme: the built-in one of the same name, or the
/// system theme for none and for a custom iced theme.
pub open spec fn theme_of_iced(t: Option<IcedTheme>) -> Theme {
    match t {
        Some(IcedTheme::Light) => Theme::Light,
        Some(IcedTheme::Dark) => Theme::Dark,
        Some(IcedTheme::Dracula) => Theme::Dracula,
        Some(IcedTheme::Nord) => Theme::Nord,
        Some(IcedTheme::SolarizedLight) => Theme::SolarizedLight,
        Some(IcedTheme::SolarizedDark) => Theme::SolarizedDark,
        Some(IcedTheme::GruvboxLight) => Theme::GruvboxLight,
        Some(IcedTheme::GruvboxDark) => Theme::GruvboxDark,
        Some(IcedTheme::CatppuccinLatte) => Theme::CatppuccinLatte,
        Some(IcedTheme::CatppuccinFrappe) => Theme::CatppuccinFrappe,
        Some(IcedTheme::CatppuccinMacchiato) => Theme::CatppuccinMacchiato,
        Some(IcedTheme::CatppuccinMocha) => Theme::CatppuccinMocha,
        Some(IcedTheme::TokyoNight) => Theme::TokyoNight,
        Some(IcedTheme::TokyoNightStorm) => Theme::TokyoNightStorm,
        Some(IcedTheme::TokyoNightLight) => Theme::TokyoNightLight,
        Some(IcedTheme::KanagawaWave) => Theme::KanagawaWave,
        Some(IcedTheme::KanagawaDragon) => Theme::KanagawaDragon,
        Some(IcedTheme::KanagawaLotus) => Theme::KanagawaLotus,
        Some(IcedTheme::Moonfly) => Theme::Moonfly,
        Some(IcedTheme::Nightfly) => Theme::Nightfly,
        Some(IcedTheme::Oxocarbon) => Theme::Oxocarbon,
        Some(IcedTheme::Ferra) => Theme::Ferra,
        _ => Theme::System,
    }
}

impl Theme {
    /// The iced theme to use: none for the system theme, else the built-in
    /// iced theme of the same name.
    pub fn to_iced_theme(t: Theme) -> (r: Option<IcedTheme>)
        ensures
            r == iced_theme_of(t),
    {
        match t {
            Theme::System => None,
            Theme::Light => Some(IcedTheme::Light),
            Theme::Dark => Some(IcedTheme::Dark),
            Theme::Dracula => Some(IcedTheme::Dracula),
            Theme::Nord => Some(IcedTheme::Nord),
            Theme::SolarizedLight => Some(IcedTheme::SolarizedLight),
            Theme::SolarizedDark => Some(IcedTheme::SolarizedDark),
            Theme::GruvboxLight => Some(IcedTheme::GruvboxLight),
            Theme::GruvboxDark => Some(IcedTheme::GruvboxDark),
            Theme::CatppuccinLatte => Some(IcedTheme::CatppuccinLatte),
            Theme::CatppuccinFrappe => Some(IcedTheme::CatppuccinFrappe),
            Theme::CatppuccinMacchiato => Some(IcedTheme::CatppuccinMacchiato),
            Theme::CatppuccinMocha => Some(IcedTheme::CatppuccinMocha),
            Theme::TokyoNight => Some(IcedTheme::TokyoNight),
            Theme::TokyoNightStorm => Some(IcedTheme::TokyoNightStorm),
            Theme::TokyoNightLight => Some(IcedTheme::TokyoNightLight),
            Theme::KanagawaWave => Some(IcedTheme::KanagawaWave),
            Theme::KanagawaDragon => Some(IcedTheme::KanagawaDragon),
            Theme::KanagawaLotus => Some(IcedTheme::KanagawaLotus),
            Theme::Moonfly => Some(IcedTheme::Moonfly),
            Theme::Nightfly => Some(IcedTheme::Nightfly),
            Theme::Oxocarbon => Some(IcedTheme::Oxocarbon),
            Theme::Ferra => Some(IcedTheme::Ferra),
        }
    }

    /// The theme that matches an iced theme: the built-in theme of the same
    /// name, or the system theme for none and for a custom iced theme.
    pub fn from_iced_theme(t: Option<IcedTheme>) -> (r: Theme)
        ensures
            r == theme_of_iced(t),
    {
        match t {
            Some(IcedTheme::Light) => Theme::Light,
            Some(IcedTheme::Dark) => Theme::Dark,
            Some(IcedTheme::Dracula) => Theme::Dracula,
            Some(IcedTheme::Nord) => Theme::Nord,
            Some(IcedTheme::SolarizedLight) => Theme::SolarizedLight,
            Some(IcedTheme::SolarizedDark) => Theme::SolarizedDark,
            Some(IcedTheme::GruvboxLight) => Theme::GruvboxLight,
            Some(IcedTheme::GruvboxDark) => Theme::GruvboxDark,
            Some(IcedTheme::CatppuccinLatte) => Theme::CatppuccinLatte,
            Some(IcedTheme::CatppuccinFrappe) => Theme::CatppuccinFrappe,
            Some(IcedTheme::CatppuccinMacchiato) => Theme::CatppuccinMacchiato,
            Some(IcedTheme::CatppuccinMocha) => Theme::CatppuccinMocha,
            Some(IcedTheme::TokyoNight) => Theme::TokyoNight,
            Some(IcedTheme::TokyoNightStorm) => Theme::TokyoNightStorm,
            Some(IcedTheme::TokyoNightLight) => Theme::TokyoNightLight,
            Some(IcedTheme::KanagawaWave) => Theme::KanagawaWave,
            Some(IcedTheme::KanagawaDragon) => Theme::KanagawaDragon,
            Some(IcedTheme::KanagawaLotus) => Theme::KanagawaLotus,
            Some(IcedTheme::Moonfly) => Theme::Moonfly,
            Some(IcedTheme::Nightfly) => Theme::Nightfly,
            Some(IcedTheme::Oxocarbon) => Theme::Oxocarbon,
            Some(IcedTheme::Ferra) => Theme::Ferra,
            _ => Theme::System,
        }
    }
}

/// Going to iced's theme and back gives the theme one started from.
pub proof fn lemma_iced_theme_round_trip(t: Theme)
    ensures
        theme_of_iced(iced_theme_of(t)) == t,
{
}

/// Persistent user settings.
#[derive(Debug)]
pub struct Config {
    pub theme: Theme,
}

impl Default for Config {
    fn default() -> (c: Config)
        ensures
            c.theme == Theme::System,
    {
        Config { theme: Theme::System }
    }
}

impl Clone for Config {
    fn clone(&self) -> (c: Config)
        ensures
            c.theme == self.theme,
    {
        Config { theme: self.theme }
    }
}

impl Config {
    /// Settings that follow the system theme.
    pub fn new() -> (c: Config)
        ensures
            c.theme == Theme::System,
    {
        Config { theme: Theme::System }
    }
}

} // verus!
