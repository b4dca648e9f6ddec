[package]
name = "spot_defy"
version = "0.1.0"
edition = "2021"
publish = false

# What the library and its tests need, and most of what the program under app/
# needs. To build the program, add librespot-playback, ratatui-image, image and,
# on macOS, apple-native-keyring-store: they bring audio and graphics stacks that
# nothing else here uses.
[dependencies]
anyhow = "1"
async-trait = "0.1"
clap = { version = "4", default-features = false, features = ["derive", "std", "help", "usage"] }
crossterm = { version = "0.29", features = ["event-stream"] }
dirs = "6"
futures = { version = "0.3", default-features = false, features = ["std"] }
keyring-core = "=1.0.1"
librespot-core = { version = "=0.8.0", default-features = false, features = ["rustls-tls-webpki-roots"] }
librespot-oauth = { version = "=0.8.0", default-features = false, features = ["rustls-tls-webpki-roots"] }
ratatui = { version = "=0.30.2", default-features = false, features = ["crossterm"] }
reqwest = { version = "0.12", default-features = false }
rspotify = { version = "=0.16.1", default-features = false, features = ["client-reqwest", "reqwest-rustls-tls"] }
secrecy = "=0.10.3"
serde = { version = "1", features = ["derive"] }
serde_json = "1"
tokio = { version = "1", features = ["rt-multi-thread", "macros", "net", "time", "sync", "io-util"] }
toml = { version = "0.9", default-features = false, features = ["std", "parse", "serde"] }
tracing = "0.1"
tracing-appender = "0.2"
tracing-subscriber = { version = "0.3", default-features = false, features = ["env-filter", "fmt", "registry", "std"] }
unicode-width = "=0.2.3"
# Pins a build dependency of librespot-core; nothing here calls it.
vergen = { version = "=9.0.6", default-features = false }
