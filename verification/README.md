# nocy

A terminal music player that streams from SoundCloud, with its core proved
correct by Verus.

- `src/` is the verified library:
  - `queue.rs`: the queue of pending tracks, an insertion-ordered map from
    track id to track held in `indexmap::IndexMap`; no id occurs twice.
  - `app.rs`: the interface state (stage, status, query, board) and how keys,
    search results and queue updates move it; the work that must follow is
    handed back as actions.
  - `player.rs`: how a player command changes the queue and the current track,
    which track plays next, and where a seek lands.
  - `stream.rs`: the positions of the streaming reader and when it waits for
    data or flushes.
  - `soundcloud.rs`: the client id in SoundCloud's scripts, search parameters,
    search records turned into tracks, and the stream request.
  - `render.rs`, `text.rs`, `version.rs`: the texts the interface draws.
  - `fs.rs`: the player's directories.
- `app/` is the program: terminal, audio (rodio), network (reqwest), the
  worker tasks and the main loop.
- `tests/` runs the library on concrete values.
