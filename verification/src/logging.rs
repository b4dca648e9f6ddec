//! Which log events may reach the log file.

use vstd::prelude::*;
use crate::text::{chars_of, has_prefix};

verus! {

/// Verbosity of a log event, from errors to traces.
#[derive(Debug, Clone, Copy, PartialEq, Eq, Structural)]
pub enum Level {
    Error,
    Warn,
    Info,
    Debug,
    Trace,
}

/// Crates that log access/refresh tokens or the OAuth authorization code — but
/// only ever at `Trace`. `Trace` events from these targets are dropped so
/// secrets can never reach the on-disk log, while `Debug` stays available for
/// troubleshooting (e.g. `RUST_LOG=librespot_playback=debug,librespot_core=debug`
/// to see why a track failed to load).
pub open spec fn secret_bearing_targets() -> Seq<Seq<char>> {
    seq!["librespot_core"@, "librespot_oauth"@, "librespot_connect"@]
}

/// Targets that emit high-volume, low-value spam. The MP3 demuxer logs a line
/// per junk byte range when a stream fails to decrypt (a single failed track
/// can produce tens of thousands of lines), so events from these targets below
/// `Error` are dropped to keep the log readable.
pub open spec fn noisy_targets() -> Seq<Seq<char>> {
    seq!["symphonia"@]
}

/// Whether `target` starts with one of `prefixes`.
pub open spec fn under(target: Seq<char>, prefixes: Seq<Seq<char>>) -> bool {
    exists|i: int| 0 <= i < prefixes.len() && (#[trigger] prefixes[i]).is_prefix_of(target)
}

/// Whether `target` starts with `prefix`.
fn starts_with(target: &Vec<char>, prefix: &str) -> (yes: bool)
    ensures
        yes == prefix@.is_prefix_of(target@),
{
    has_prefix(target, &chars_of(prefix))
}

/// Whether a log event is a token-bearing `Trace` event that must be dropped.
pub fn is_redacted(target: &str, level: Level) -> (dropped: bool)
    ensures
        dropped == (level == Level::Trace && under(target@, secret_bearing_targets())),
{
    let chars = chars_of(target);
    let core: bool = starts_with(&chars, "librespot_core");
    let oauth: bool = starts_with(&chars, "librespot_oauth");
    let connect: bool = starts_with(&chars, "librespot_connect");
    proof {
        let prefixes = secret_bearing_targets();
        assert(prefixes[0] == "librespot_core"@);
        assert(prefixes[1] == "librespot_oauth"@);
        assert(prefixes[2] == "librespot_connect"@);
    }
    level == Level::Trace && (core || oauth || connect)
}

/// Whether a log event is high-volume noise to drop below `Error`.
pub fn is_noise(target: &str, level: Level) -> (dropped: bool)
    ensures
        dropped == (level != Level::Error && under(target@, noisy_targets())),
{
    let chars = chars_of(target);
    proof {
        assert(noisy_targets()[0] == "symphonia"@);
    }
    level != Level::Error && starts_with(&chars, "symphonia")
}

/// Whether a log event is written.
pub fn is_logged(target: &str, level: Level) -> (written: bool)
    ensures
        !written == ((level == Level::Trace && under(target@, secret_bearing_targets())) || (level
            != Level::Error && under(target@, noisy_targets()))),
{
    !is_redacted(target, level) && !is_noise(target, level)
}

/// A module of a crate counts to the crate: whatever follows one of the
/// prefixes, the target is under them; a target that differs from each of them
/// within its length is not.
pub proof fn modules_count_to_their_crate(
    prefixes: Seq<Seq<char>>,
    at: int,
    rest: Seq<char>,
    target: Seq<char>,
)
    requires
        0 <= at < prefixes.len(),
        forall|k: int|
            0 <= k < prefixes.len() ==> exists|place: int|
                0 <= place < (#[trigger] prefixes[k]).len() && (place >= target.len()
                    || #[trigger] target[place] != prefixes[k][place]),
    ensures
        under(prefixes[at] + rest, prefixes),
        !under(target, prefixes),
{
    assert((prefixes[at] + rest).subrange(0, prefixes[at].len() as int) =~= prefixes[at]);
    assert forall|k: int| 0 <= k < prefixes.len() implies !(#[trigger] prefixes[k]).is_prefix_of(
        target,
    ) by {
        let place = choose|place: int|
            0 <= place < prefixes[k].len() && (place >= target.len() || #[trigger] target[place]
                != prefixes[k][place]);
        if prefixes[k].is_prefix_of(target) {
            assert(target.subrange(0, prefixes[k].len() as int)[place] == target[place]);
        }
    }
}

/// The crates that log tokens at their most verbose level are the session, the
/// login and the remote control of the streaming library.
pub proof fn token_bearing_crates_are_listed()
    ensures
        secret_bearing_targets().contains("librespot_core"@),
        secret_bearing_targets().contains("librespot_oauth"@),
        secret_bearing_targets().contains("librespot_connect"@),
        noisy_targets().contains("symphonia"@),
{
    assert(secret_bearing_targets()[0] == "librespot_core"@);
    assert(secret_bearing_targets()[1] == "librespot_oauth"@);
    assert(secret_bearing_targets()[2] == "librespot_connect"@);
    assert(noisy_targets()[0] == "symphonia"@);
}

} // verus!
