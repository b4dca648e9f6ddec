//! Config defaults, keybinding conflicts, and theme colors.

use spot_defy::auth::webapi_client_id_default;
use spot_defy::config::{
    config_without_file, Color, Config, ConfigError, Keybindings, ReadFailure, Theme, ThemeColors,
};
use spot_defy::ipc::server::{after_inspection, after_probe, PathState, ProbeOutcome, SocketStep};
use spot_defy::error::IpcError;
use spot_defy::state::Model;

#[test]
fn default_config_uses_webapi_client_id_and_port() {
    let config = Config::default();
    assert_eq!(config.client_id, webapi_client_id_default());
    assert_eq!(config.redirect_port, 8899);
}

#[test]
fn default_keybindings_match_vim_conventions() {
    let config = Config::default();
    assert_eq!(config.keybindings.quit, 'q');
    assert_eq!(config.keybindings.down, 'j');
    assert_eq!(config.keybindings.up, 'k');
    assert_eq!(config.keybindings.search, '/');
}

#[test]
fn shared_keys_are_rejected() {
    let mut config = Config::default();
    assert_eq!(config.validate(), Ok(()));
    config.keybindings.previous = 'n';
    config.keybindings.search = 'q';
    // The first conflict, by the first binding, is reported.
    assert_eq!(
        config.validate(),
        Err(ConfigError::DuplicateKey { first: "quit", second: "search" })
    );
    assert_eq!(
        config.validate().unwrap_err().message(),
        "keybindings conflict: quit and search"
    );
    assert!(Model::from_config(&config).is_err());
}

#[test]
fn bound_keys_are_in_use() {
    let keys = Keybindings::default();
    assert!(keys.uses(' '));
    assert!(!keys.uses('r'));
}

#[test]
fn theme_names_resolve_to_colors() {
    assert_eq!(Theme::default().colors(), Ok(ThemeColors::default()));
    let theme = Theme {
        accent: "Light Blue".to_owned(),
        progress: "#1DB954".to_owned(),
        dim: "240".to_owned(),
    };
    assert_eq!(
        theme.colors(),
        Ok(ThemeColors {
            accent: Color::LightBlue,
            progress: Color::Rgb(29, 185, 84),
            dim: Color::Indexed(240),
        })
    );
}

#[test]
fn every_color_name_is_carried_over() {
    let named = vec![
        ("reset", Color::Reset),
        ("black", Color::Black),
        ("red", Color::Red),
        ("green", Color::Green),
        ("yellow", Color::Yellow),
        ("blue", Color::Blue),
        ("magenta", Color::Magenta),
        ("cyan", Color::Cyan),
        ("gray", Color::Gray),
        ("darkgray", Color::DarkGray),
        ("lightred", Color::LightRed),
        ("lightgreen", Color::LightGreen),
        ("lightyellow", Color::LightYellow),
        ("lightblue", Color::LightBlue),
        ("lightmagenta", Color::LightMagenta),
        ("lightcyan", Color::LightCyan),
        ("white", Color::White),
    ];
    for (name, color) in named {
        let theme = Theme {
            accent: name.to_owned(),
            ..Theme::default()
        };
        assert_eq!(theme.colors().unwrap().accent, color);
    }
}

#[test]
fn unknown_colors_are_rejected_by_entry() {
    let theme = Theme {
        progress: "chartreuse-ish".to_owned(),
        dim: "nope".to_owned(),
        ..Theme::default()
    };
    let error = theme.colors().unwrap_err();
    assert_eq!(
        error.message(),
        "invalid theme color for progress: chartreuse-ish"
    );
    let config = Config { theme, ..Config::default() };
    assert_eq!(Model::from_config(&config).err(), Some(error));
}

#[test]
fn theme_colors_follow_what_each_name_was_read_as() {
    let theme = Theme::default();
    assert_eq!(
        theme.resolve(Some(Color::Red), Some(Color::Blue), None),
        Err(ConfigError::UnknownColor { entry: "dim", name: "gray".to_owned() })
    );
    assert_eq!(
        theme.resolve(None, None, None),
        Err(ConfigError::UnknownColor { entry: "accent", name: "green".to_owned() })
    );
    let colors = theme.resolve(Some(Color::Red), Some(Color::Blue), Some(Color::White));
    assert_eq!(
        colors,
        Ok(ThemeColors { accent: Color::Red, progress: Color::Blue, dim: Color::White })
    );
}

#[test]
fn a_model_takes_its_settings_from_the_config() {
    let mut config = Config::default();
    config.keybindings.quit = 'x';
    config.theme.accent = "magenta".to_owned();
    let model = Model::from_config(&config).expect("a valid config");
    assert_eq!(model.keybindings.quit, 'x');
    assert_eq!(model.theme.accent, Color::Magenta);
    assert!(!model.should_quit);
}

#[test]
fn a_live_socket_is_never_stolen() {
    assert_eq!(after_inspection(PathState::Missing), SocketStep::Bind);
    assert_eq!(after_inspection(PathState::Socket), SocketStep::Probe);
    assert_eq!(after_inspection(PathState::Other), SocketStep::Unlink);
    assert_eq!(
        after_inspection(PathState::Unreadable("denied".to_owned())),
        SocketStep::Fail(IpcError::Socket("stat socket path: denied".to_owned()))
    );
    assert_eq!(after_probe(ProbeOutcome::Refused, "/s"), SocketStep::Unlink);
    assert_eq!(after_probe(ProbeOutcome::Gone, "/s"), SocketStep::Bind);
    let live = after_probe(ProbeOutcome::Connected, "/tmp/spot-defy.sock");
    assert_eq!(
        live,
        SocketStep::Fail(IpcError::Socket(
            "now-playing socket already in use: /tmp/spot-defy.sock".to_owned()
        ))
    );
    assert_eq!(
        after_probe(ProbeOutcome::Failed("reset".to_owned()), "/s"),
        SocketStep::Fail(IpcError::Socket("probe existing socket: reset".to_owned()))
    );
    assert_eq!(IpcError::Timeout.message(), "ipc request timed out");
    assert_eq!(
        IpcError::Payload("x".to_owned()).message(),
        "ipc payload error: x"
    );
    assert_eq!(
        IpcError::Socket("x".to_owned()).message(),
        "ipc socket error: x"
    );
}

#[test]
fn a_missing_file_gives_the_defaults_and_an_unreadable_one_nothing() {
    assert_eq!(config_without_file(ReadFailure::Missing), Some(Config::default()));
    assert_eq!(config_without_file(ReadFailure::Unreadable), None);
}
