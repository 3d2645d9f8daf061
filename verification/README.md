# codesesh_api

The backend of CodeSesh, a service for live pair-programming sessions: users
create sessions, others join them, everyone edits one document together over
a WebSocket, chats, and keeps private notes.

## Layout

- `src/` — the library, written in Verus. Every function carries a contract
  that Verus proves:
  - `text_edit` — applying (line, column) edits to a document, with the laws
    that a position names one place, every place has a position, and an edit
    is undone by its inverse;
  - `live` — the state of a live session: edits with their version and event
    cap checks, who is present, what waits to be stored, and the messages
    sent to editors;
  - `services` — the rules of the HTTP API: who may read, change, join or end
    a session, listings and their pages, participants in joining order, chat
    history pages, notes;
  - `config`, `rate_limit`, `extractors`, `errors`, `dto`, `models`,
    `messages`, `response`, `session_repo`, `websocket` — settings, the
    request guard, error answers, request and response shapes, and the
    decisions that surround storage and the socket.
- `tests/` — tests of the library on concrete values.
- `app/` — the server around the library: axum routes and handlers, the
  Postgres queries, the socket loop, serde and sqlx forms of the library's
  types.
