# mousai

The song model of a song recognizer, verified with Verus.

- `src/song_id.rs`: song ids, `<namespace>-<unique string>`, and the law that ids of one
  namespace are equal exactly when their unique strings are.
- `src/song.rs`: the song, its builder, the record it is stored as, and the laws on
  storing and on the last-heard and newly-heard setters.
- `src/date_time.rs`, `src/external_links.rs`: the plain values a song holds.
- `app/`: start-up, and the JSON and SQLite forms of the records (serde, rusqlite).
