//! spot-defy: a terminal Spotify client, as a library of verified rules.
//!
//! Everything the client decides lives here: the reducer behind the screens,
//! the playback queue, the text of every row and status line, the shape of the
//! requests it makes and what it does with their replies. The surrounding
//! program performs the network, audio, keychain and terminal work.

pub mod api;
pub mod app;
pub mod app_laws;
pub mod auth;
pub mod cli;
pub mod clock;
pub mod config;
pub mod error;
pub mod ipc;
pub mod keys;
pub mod layout;
pub mod logging;
pub mod message;
pub mod model;
pub mod player;
pub mod secrets;
pub mod state;
pub mod text;
pub mod text_laws;
pub mod update;
pub mod view;
