# FuraChat

A self-hosted chat server (servers, channels, messages, direct messages,
forum, voice signaling, roles, moderation, uploads), written in Rust.

## Layout

- `src/` — the library, verified with Verus. Every public function states
  what it returns in its contract, and the laws of the service are proof
  functions:
  - `permissions` — permission sets and their resolution (@everyone, roles,
    channel allow/deny overrides, owner);
  - `hub` — presence, server rooms and voice channels, and who receives a
    broadcast;
  - `session` — the WebSocket connection protocol as a state machine;
  - `invite`, `user`, `password`, `server`, `channel`, `message`, `upload`,
    `archive`, `config`, `auth`, `error` — the rules around invitations and
    their expiry, accounts, password hashes (Argon2), servers, channels,
    reactions, uploaded files, archiving, settings, session tokens (signed
    JWT, jsonwebtoken) and the bearer token of a request, and error answers;
  - `text` — string helpers.
- `tests/` — tests of the library on concrete values.
- `app/` — the server program: HTTP routes (axum), SQLite queries
  (rusqlite, r2d2), the WebSocket loop that
  drives the library's session machine, and the periodic archiver.

## Configuration

| Variable | Default |
|----------|---------|
| `FURACHAT_DATA_DIR` | `data` |
| `FURACHAT_PORT` | `8080` |
| `FURACHAT_HOST` | `0.0.0.0` |
| `FURACHAT_JWT_SECRET` | `furachat-dev-secret-change-in-production` |
| `FURACHAT_JWT_EXPIRATION` | `604800` (seconds) |
| `FURACHAT_ARCHIVE_THRESHOLD` | `524288000` (bytes of free space) |
| `FURACHAT_MAX_UPLOAD` | `52428800` (bytes) |

The database lives in `furachat.db` inside the data directory.
