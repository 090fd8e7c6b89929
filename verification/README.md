# hegel_session

The client's side of a session with the hegel server, a property-based testing
server that a test library drives over a pair of pipes.

- `src/` is the library. Everything in it is verified with Verus: the reading of
  protocol versions and of the handshake (`version`, `handshake`), CBOR values
  (`cbor`), the messages that open a run (`settings`, `request`), what the server
  sends (`event`, `failure`), the course of a run as a state machine (`run`), what
  holds of whole runs (`trace`), and the life of the session and of the server
  process (`session`).
  The calls into `ciborium` and the standard library that are not verified stand in
  `cbor` and `text`.
- `app/` performs what the library decides: it starts the server process, keeps the
  session, moves bytes and runs test cases.
- `tests/` runs the library.
