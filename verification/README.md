# neon_beat_back

Game-master backend logic for a buzzer quiz, written in Verus. The library's own logic is
verified against its contracts; calls into outside crates and into the clock go through
small trusted functions whose contracts Verus believes without proof.

- `src/` is the verified library: questions sequences and their validation, the running
  game (current question, answers found, hints), teams and scores, buzzer pairing, what a
  buzz does in each phase, buzzer light patterns and the runtime configuration, stored
  records and CouchDB documents, server-sent notifications, the administrator token, the
  conversation with a buzzer over its WebSocket, and the decisions of the storage
  supervisor. `src/laws.rs` states properties that span several operations.
- `tests/` runs the library on concrete values.
- `app/` is the HTTP server around the library: configuration file, JSON shapes, routing,
  server-sent event streams and the WebSocket loop.

The trusted functions (marked `#[verifier::external_body]`) each make one outside call:
`indexmap` for ordered maps, `uuid` for identifiers and their text, `time` for RFC 3339
timestamps, `validator` for URLs, `rand` for shuffling, and `std::time` for the clock.
Their doc comments say what their contracts claim and what they leave unsaid.
