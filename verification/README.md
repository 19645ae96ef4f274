# hifi-rs

The core of a terminal music player for a high-resolution streaming
service, written in Verus: the track list the player plays from, the
player's state and the decisions it makes around the audio pipeline, the
pure parts of the streaming-service client (requests, answers, secrets,
queue entries built from albums and playlists), the text of the player's
panels and lists, the keyboard navigation of the terminal screens, the
desktop media-player interface and the playlist sync tool's matching.

- `src/` is the verified library. Each public function states its result
  in its contract; `src/laws.rs` and `src/sorting.rs` hold the properties
  that span several calls.
- `tests/` runs the library on concrete values.
- `app/` is a small command-line front end: it reads arguments and files
  and hands plain values to the library.
