# current_song

Tracks what a desktop music player (Spotify, Music, or a media tab in a
browser) is playing and serves it, with its artwork, to local clients.

## Layout

- `src/` — the verified library. Every decision the daemon makes is a
  function with a contract proved by Verus:
  - `text.rs`: the string operations used everywhere (trim, find, replace,
    split), each specified over `Seq<char>`.
  - `span.rs`, `fmt.rs`: durations and number formatting.
  - `player.rs`: the player model (`State`, `TrackInfo`, `PlayerListener`).
  - `probe.rs`: which player is asked, in what order, and how replies are read.
  - `listen.rs`: when a new state is sent, and the idle reminders.
  - `macos.rs`, `browser.rs`: the workers that follow the desktop player and
    browser tabs; tab titles are parsed into songs here.
  - `artwork.rs`, `img.rs`: artwork replies and the image endpoint's answer.
  - `config.rs`: configuration defaults and the search for a config file.
  - `scripts.rs`: the AppleScript texts and how their output is read.
- `tests/` — tests of the library on concrete values.
- `app/` — the unverified shell: running AppleScript, files, HTTP, timers,
  and the serde and thiserror copies of the library's types.
