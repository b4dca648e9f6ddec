# spot-defy

A terminal Spotify client whose rules are verified with Verus.

- `src/` is the library: everything the client decides. Each rule is stated over
  plain mathematical values and proved of the code beside it.
- `app/` is the program around it: the terminal, the network, the audio engine,
  the Keychain and the now-playing socket. Its audio, image and Keychain crates
  are not in `Cargo.toml`, which says what to add to build it.
- `tests/` runs the library on concrete values.

## Where things are

| Module | What it decides |
| --- | --- |
| `update` | the reducer: from a model and a message to the next model and the actions to carry out |
| `update::search` | editing the query, the debounce |
| `update::loading` | screens, selection, what is requested and what happens to each reply |
| `update::playback` | the queue cursor, engine events, tracks that cannot be played |
| `update::queue`, `update::shuffle` | queue edits, shuffling and exact restoration |
| `update::*laws` | what holds of every message in every state |
| `view` | division, geometry and text of the screen |
| `api` | requests, row mapping, error classification, retries, paging |
| `player` | volume scales, the player's queue, engine events |
| `ipc` | the tmux status line and the socket |
| `auth`, `secrets` | tokens, scopes, the login steps, Keychain answers |
| `app` | cover art, search lanes, reconnects, token renewal |
| `config`, `logging`, `cli`, `keys`, `layout`, `clock`, `text`, `model`, `error`, `state`, `message` | settings and shared types |

The mathematical value of a type is its view: `Model` has a `ModelView`, an
`Action` an `ActionView`, and so on. `update::stepped` is the whole reducer as a
function on those values; `update::update_at` is proved to compute it.

What is taken on trust is marked `external_body`, `external_type_specification`,
`assume_specification` or `uninterp`: display widths (unicode-width), color names
and the division of an area (ratatui), ids (rspotify, librespot), secrets
(secrecy), the monotonic clock and a string's push and debug format (std).
