//! User configuration: keybindings, theme, and the Web API client settings.
//!
//! The config holds only non-secret settings. Every field has a default, so a
//! missing or partial `config.toml` still yields a fully populated [`Config`].

use std::str::FromStr;
use ratatui::style::Color as Shade;
use vstd::prelude::*;
use crate::auth::{client_id_default, webapi_client_id_default};
use crate::text::joined;

verus! {

/// Application identifier used as the config-directory subfolder.
pub const APP_DIR: &'static str = "spot-defy";

/// Config file name within the application config directory.
pub const CONFIG_FILE: &'static str = "config.toml";

/// The default loopback redirect port for the Web API OAuth flow.
///
/// Distinct from the fixed streaming-flow port (8898) so the two sequential
/// logins never contend. A custom `client_id` must register
/// `http://127.0.0.1:8899/login` (or whatever `redirect_port` is set to).
pub const DEFAULT_REDIRECT_PORT: u16 = 8899;

/// Why a configuration is rejected.
#[derive(Debug, PartialEq, Eq)]
pub enum ConfigError {
    /// Two actions share one key.
    DuplicateKey { first: &'static str, second: &'static str },
    /// A theme entry names no terminal color.
    UnknownColor { entry: &'static str, name: String },
}

/// What a [`ConfigError`] stands for.
pub enum ConfigErrorView {
    DuplicateKey(Seq<char>, Seq<char>),
    UnknownColor(Seq<char>, Seq<char>),
}

impl View for ConfigError {
    type V = ConfigErrorView;

    open spec fn view(&self) -> ConfigErrorView {
        match self {
            ConfigError::DuplicateKey { first, second } => ConfigErrorView::DuplicateKey(
                first@,
                second@,
            ),
            ConfigError::UnknownColor { entry, name } => ConfigErrorView::UnknownColor(
                entry@,
                name@,
            ),
        }
    }
}

impl ConfigError {
    /// The text shown for this error.
    pub open spec fn text(&self) -> Seq<char> {
        match self {
            ConfigError::DuplicateKey { first, second } => "keybindings conflict: "@ + first@
                + " and "@ + second@,
            ConfigError::UnknownColor { entry, name } => "invalid theme color for "@ + entry@
                + ": "@ + name@,
        }
    }

    /// The text shown for this error.
    pub fn message(&self) -> (text: String)
        ensures
            text@ == self.text(),
    {
        match self {
            ConfigError::DuplicateKey { first, second } => {
                let head = joined("keybindings conflict: ", first);
                let middle = joined(head.as_str(), " and ");
                joined(middle.as_str(), second)
            },
            ConfigError::UnknownColor { entry, name } => {
                let head = joined("invalid theme color for ", entry);
                let middle = joined(head.as_str(), ": ");
                joined(middle.as_str(), name.as_str())
            },
        }
    }
}

/// Single-character key bindings for the TUI.
///
/// Each binding is a single logical key the user presses in `Normal` mode.
/// Defaults follow common vim-style conventions.
#[derive(Debug, Clone, Copy, PartialEq, Eq, Structural)]
pub struct Keybindings {
    /// Quit the application.
    pub quit: char,
    /// Move selection down.
    pub down: char,
    /// Move selection up.
    pub up: char,
    /// Toggle play/pause.
    pub play_pause: char,
    /// Skip to the next track.
    pub next: char,
    /// Return to the previous track.
    pub previous: char,
    /// Enter search/insert mode.
    pub search: char,
}

/// The names of the bindings, in the order in which they are checked.
pub open spec fn binding_names() -> Seq<Seq<char>> {
    seq!["quit"@, "down"@, "up"@, "play_pause"@, "next"@, "previous"@, "search"@]
}

/// The name of the binding at `index`, in the order in which they are checked.
fn binding_name(index: usize) -> (name: &'static str)
    requires
        index < 7,
    ensures
        name@ == binding_names()[index as int],
{
    match index {
        0 => "quit",
        1 => "down",
        2 => "up",
        3 => "play_pause",
        4 => "next",
        5 => "previous",
        _ => "search",
    }
}

impl Default for Keybindings {
    fn default() -> (keys: Self)
        ensures
            keys.keys() == seq!['q', 'j', 'k', ' ', 'n', 'p', '/'],
            keys.distinct(),
    {
        Keybindings {
            quit: 'q',
            down: 'j',
            up: 'k',
            play_pause: ' ',
            next: 'n',
            previous: 'p',
            search: '/',
        }
    }
}

impl Keybindings {
    /// The bound keys, in the order of [`binding_names`].
    pub open spec fn keys(&self) -> Seq<char> {
        seq![
            self.quit,
            self.down,
            self.up,
            self.play_pause,
            self.next,
            self.previous,
            self.search,
        ]
    }

    /// Whether no two actions share a key.
    pub open spec fn distinct(&self) -> bool {
        forall|i: int, j: int| 0 <= i < j < 7 ==> self.keys()[i] != self.keys()[j]
    }

    /// Whether `(i, j)` is the first pair of bindings that share a key, in
    /// the order of the first binding, then of the second.
    pub open spec fn first_conflict(&self, i: int, j: int) -> bool {
        &&& 0 <= i < j < 7
        &&& self.keys()[i] == self.keys()[j]
        &&& forall|a: int, b: int|
            0 <= a < b < 7 && self.keys()[a] == self.keys()[b] ==> i < a || (i == a && j <= b)
    }

    /// The bound keys, in the order of [`binding_names`].
    fn listed(&self) -> (keys: Vec<char>)
        ensures
            keys@ == self.keys(),
    {
        let keys = vec![
            self.quit,
            self.down,
            self.up,
            self.play_pause,
            self.next,
            self.previous,
            self.search,
        ];
        assert(keys@ =~= self.keys());
        keys
    }

    /// Whether the user bound `key` to some action.
    pub fn uses(&self, key: char) -> (used: bool)
        ensures
            used == self.keys().contains(key),
    {
        let used: bool = self.quit == key || self.down == key || self.up == key || self.play_pause
            == key || self.next == key || self.previous == key || self.search == key;
        proof {
            let keys = self.keys();
            assert(keys[0] == self.quit && keys[1] == self.down && keys[2] == self.up && keys[3]
                == self.play_pause && keys[4] == self.next && keys[5] == self.previous && keys[6]
                == self.search);
        }
        used
    }

    /// Rejects bindings in which two actions share a key, naming the first
    /// such pair.
    pub fn validate(&self) -> (result: Result<(), ConfigError>)
        ensures
            result is Ok == self.distinct(),
            result is Err ==> exists|i: int, j: int| #[trigger]
                self.first_conflict(i, j) && result->Err_0@ == ConfigErrorView::DuplicateKey(
                    binding_names()[i],
                    binding_names()[j],
                ),
    {
        let keys = self.listed();
        let mut i: usize = 0;
        while i < 7
            invariant
                keys@ == self.keys(),
                i <= 7,
                forall|a: int, b: int| 0 <= a < i && a < b < 7 ==> keys@[a] != keys@[b],
            decreases 7 - i,
        {
            let mut j: usize = i + 1;
            while j < 7
                invariant
                    keys@ == self.keys(),
                    i < j <= 7,
                    i < 7,
                    forall|a: int, b: int| 0 <= a < i && a < b < 7 ==> keys@[a] != keys@[b],
                    forall|b: int| i < b < j ==> keys@[i as int] != keys@[b],
                decreases 7 - j,
            {
                if keys[i] == keys[j] {
                    assert(self.first_conflict(i as int, j as int));
                    assert(!self.distinct());
                    return Err(
                        ConfigError::DuplicateKey {
                            first: binding_name(i),
                            second: binding_name(j),
                        },
                    );
                }
                j = j + 1;
            }
            i = i + 1;
        }
        Ok(())
    }
}

/// A terminal color.
#[derive(Debug, Clone, Copy, PartialEq, Eq, Structural)]
pub enum Color {
    Reset,
    Black,
    Red,
    Green,
    Yellow,
    Blue,
    Magenta,
    Cyan,
    Gray,
    DarkGray,
    LightRed,
    LightGreen,
    LightYellow,
    LightBlue,
    LightMagenta,
    LightCyan,
    White,
    Rgb(u8, u8, u8),
    Indexed(u8),
}

/// The color that the terminal library reads `name` as, or `None` where the
/// name is not one it knows.
pub uninterp spec fn color_named(name: Seq<char>) -> Option<Color>;

/// ratatui's `<Color as FromStr>::from_str`: reads a color name, a palette
/// index or a `#rrggbb` triple. The result depends on the text alone.
#[verifier::external_body]
fn parse_color(name: &str) -> (color: Option<Color>)
    ensures
        color == color_named(name@),
{
    Some(match Shade::from_str(name).ok()? {
        Shade::Reset => Color::Reset, Shade::Black => Color::Black,
        Shade::Red => Color::Red, Shade::Green => Color::Green,
        Shade::Yellow => Color::Yellow, Shade::Blue => Color::Blue,
        Shade::Magenta => Color::Magenta, Shade::Cyan => Color::Cyan,
        Shade::Gray => Color::Gray, Shade::DarkGray => Color::DarkGray,
        Shade::LightRed => Color::LightRed, Shade::LightGreen => Color::LightGreen,
        Shade::LightYellow => Color::LightYellow, Shade::LightBlue => Color::LightBlue,
        Shade::LightMagenta => Color::LightMagenta, Shade::LightCyan => Color::LightCyan,
        Shade::White => Color::White, Shade::Indexed(i) => Color::Indexed(i),
        Shade::Rgb(r, g, b) => Color::Rgb(r, g, b),
    })
}

/// Named-color theme for the TUI.
///
/// Colors are stored as terminal color names (e.g. `"green"`, `"cyan"`) so the
/// config stays terminal-palette friendly and human-editable.
#[derive(Debug, PartialEq, Eq)]
pub struct Theme {
    /// Accent color for highlighted/selected rows.
    pub accent: String,
    /// Color of the now-playing progress bar.
    pub progress: String,
    /// Color used for secondary/dim text.
    pub dim: String,
}

impl Default for Theme {
    fn default() -> (theme: Self)
        ensures
            theme.accent@ == "green"@,
            theme.progress@ == "cyan"@,
            theme.dim@ == "gray"@,
    {
        Theme { accent: "green".to_owned(), progress: "cyan".to_owned(), dim: "gray".to_owned() }
    }
}

/// The resolved renderer colors.
#[derive(Debug, Clone, Copy, PartialEq, Eq, Structural)]
pub struct ThemeColors {
    pub accent: Color,
    pub progress: Color,
    pub dim: Color,
}

impl Default for ThemeColors {
    fn default() -> (colors: Self)
        ensures
            colors == (ThemeColors {
                accent: Color::Green,
                progress: Color::Cyan,
                dim: Color::Gray,
            }),
    {
        ThemeColors { accent: Color::Green, progress: Color::Cyan, dim: Color::Gray }
    }
}

/// The colors a theme resolves to, given what each name is read as; the first
/// entry, in the order accent, progress, dim, that names no color is reported.
pub open spec fn resolved(
    accent: Option<Color>,
    progress: Option<Color>,
    dim: Option<Color>,
    names: (Seq<char>, Seq<char>, Seq<char>),
) -> Result<ThemeColors, ConfigErrorView> {
    match (accent, progress, dim) {
        (None, _, _) => Err(ConfigErrorView::UnknownColor("accent"@, names.0)),
        (Some(_), None, _) => Err(ConfigErrorView::UnknownColor("progress"@, names.1)),
        (Some(_), Some(_), None) => Err(ConfigErrorView::UnknownColor("dim"@, names.2)),
        (Some(accent), Some(progress), Some(dim)) => Ok(ThemeColors { accent, progress, dim }),
    }
}

/// A configuration result with its error seen as a plain value.
pub open spec fn config_outcome<T>(result: Result<T, ConfigError>) -> Result<T, ConfigErrorView> {
    match result {
        Ok(value) => Ok(value),
        Err(error) => Err(error@),
    }
}

impl Theme {
    /// The colors the theme's names are read as.
    pub open spec fn colors_spec(&self) -> Result<ThemeColors, ConfigErrorView> {
        resolved(
            color_named(self.accent@),
            color_named(self.progress@),
            color_named(self.dim@),
            (self.accent@, self.progress@, self.dim@),
        )
    }

    /// Assembles the colors from what each name was read as.
    pub fn resolve(
        &self,
        accent: Option<Color>,
        progress: Option<Color>,
        dim: Option<Color>,
    ) -> (result: Result<ThemeColors, ConfigError>)
        ensures
            config_outcome(result) == resolved(
                accent,
                progress,
                dim,
                (self.accent@, self.progress@, self.dim@),
            ),
    {
        match (accent, progress, dim) {
            (None, _, _) => Err(
                ConfigError::UnknownColor { entry: "accent", name: self.accent.clone() },
            ),
            (Some(_), None, _) => Err(
                ConfigError::UnknownColor { entry: "progress", name: self.progress.clone() },
            ),
            (Some(_), Some(_), None) => Err(
                ConfigError::UnknownColor { entry: "dim", name: self.dim.clone() },
            ),
            (Some(accent), Some(progress), Some(dim)) => Ok(ThemeColors { accent, progress, dim }),
        }
    }

    /// Reads the theme's color names, rejecting the first unknown one.
    pub fn colors(&self) -> (result: Result<ThemeColors, ConfigError>)
        ensures
            config_outcome(result) == self.colors_spec(),
    {
        let accent = parse_color(self.accent.as_str());
        let progress = parse_color(self.progress.as_str());
        let dim = parse_color(self.dim.as_str());
        self.resolve(accent, progress, dim)
    }
}

/// Top-level user configuration.
#[derive(Debug, PartialEq, Eq)]
pub struct Config {
    /// Web API OAuth client id. Defaults to the shared extended-quota id; set
    /// this to your own registered Spotify app's client id to use your own quota
    /// (register `http://127.0.0.1:<redirect_port>/login` as its redirect URI).
    pub client_id: String,
    /// Loopback port the Web API PKCE redirect listener binds to.
    pub redirect_port: u16,
    /// Key bindings for navigation and playback control.
    pub keybindings: Keybindings,
    /// Foreground/accent theme colors (named, not RGB, for terminal safety).
    pub theme: Theme,
}

impl Config {
    /// Whether every setting has its default.
    pub open spec fn is_default(self) -> bool {
        &&& self.client_id@ == client_id_default()
        &&& self.redirect_port == DEFAULT_REDIRECT_PORT
        &&& self.keybindings.keys() == seq!['q', 'j', 'k', ' ', 'n', 'p', '/']
        &&& self.theme.accent@ == "green"@
        &&& self.theme.progress@ == "cyan"@
        &&& self.theme.dim@ == "gray"@
    }
}

/// Why `config.toml` could not be read.
#[derive(Debug, Clone, Copy, PartialEq, Eq, Structural)]
pub enum ReadFailure {
    /// There is no such file.
    Missing,
    /// There is one, and it cannot be read.
    Unreadable,
}

/// The configuration to run with where the file could not be read: the defaults
/// where there is none, as on the first launch. A file that is there and cannot
/// be read gives none, so that the user can fix it rather than run with
/// surprising settings.
pub fn config_without_file(failure: ReadFailure) -> (config: Option<Config>)
    ensures
        config is Some == (failure is Missing),
        config is Some ==> config->0.is_default(),
{
    match failure {
        ReadFailure::Missing => Some(Config::default()),
        ReadFailure::Unreadable => None,
    }
}

impl Default for Config {
    fn default() -> (config: Self)
        ensures
            config.is_default(),
            config.keybindings.distinct(),
    {
        Config {
            client_id: webapi_client_id_default().to_owned(),
            redirect_port: DEFAULT_REDIRECT_PORT,
            keybindings: Keybindings::default(),
            theme: Theme::default(),
        }
    }
}

impl Config {
    /// Rejects a configuration whose keybindings conflict.
    pub fn validate(&self) -> (result: Result<(), ConfigError>)
        ensures
            result is Ok == self.keybindings.distinct(),
            result is Err ==> exists|i: int, j: int| #[trigger]
                self.keybindings.first_conflict(i, j) && result->Err_0@
                    == ConfigErrorView::DuplicateKey(binding_names()[i], binding_names()[j]),
    {
        self.keybindings.validate()
    }
}

} // verus!
