//! What the command line asks for.
//!
//! The same binary serves three modes: the default TUI, a `now-playing`
//! one-line status reader for the tmux status bar, and `auth` to run or undo the
//! OAuth logins.

use vstd::prelude::*;
use crate::secrets::TokenKind;

verus! {

/// Privacy-first Spotify player TUI with embedded streaming.
#[derive(Debug, Clone, Copy, PartialEq, Eq, Structural)]
pub struct Cli {
    /// Optional subcommand; when omitted the interactive TUI launches.
    pub command: Option<Command>,
}

/// Top-level subcommands.
#[derive(Debug, Clone, Copy, PartialEq, Eq, Structural)]
pub enum Command {
    /// Print a one-line now-playing status for the tmux status bar, then exit.
    NowPlaying,
    /// Authentication management.
    Auth(AuthCommand),
}

/// `spot-defy auth ...` subcommands.
#[derive(Debug, Clone, Copy, PartialEq, Eq, Structural)]
pub enum AuthCommand {
    /// Run the interactive OAuth login flow and store the refresh token.
    Login,
    /// Remove the stored refresh token from the Keychain (logout).
    Logout,
}

impl Cli {
    /// Whether the command reads or writes Keychain tokens, so that the Keychain
    /// store must be installed first. Only the status reader does without.
    pub fn needs_keychain(&self) -> (yes: bool)
        ensures
            yes == (self.command != Some(Command::NowPlaying)),
    {
        match self.command {
            Some(Command::NowPlaying) => false,
            _ => true,
        }
    }
}

/// The tokens that a logout removes, in order.
pub fn logout_tokens() -> (kinds: Vec<TokenKind>)
    ensures
        kinds@ == seq![TokenKind::Streaming, TokenKind::WebApi],
{
    let kinds = vec![TokenKind::Streaming, TokenKind::WebApi];
    assert(kinds@ =~= seq![TokenKind::Streaming, TokenKind::WebApi]);
    kinds
}

} // verus!
