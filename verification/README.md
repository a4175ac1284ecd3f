# dizi

A server-client music player whose logic is written in Verus and proved
against its contracts.

- `src/`: the verified library. `playlist`, `player`, `song` and `response`
  hold what server and clients share (playlists, the player state, queries);
  `server/` holds the server's playlists with their play orders, the player,
  the configuration, the decisions of the audio stream thread and the
  bookkeeping of a playing stream; `client/` holds what a client does with the
  server's events and what its widgets show.
- `app/`: the server program around the library: command line, configuration
  files, the Unix socket, reading songs from disk, decoding and playing audio.
- `tests/`: tests of the library.
