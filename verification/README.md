# mediahub

A desktop media hub for YouTube, TikTok and local video files.

- `src/` is the verified library (Verus): the media-item model and its
  sanitising rules, settings validation and storage records, the OAuth
  PKCE flow and the redirect-listener protocol, the session's token
  bookkeeping (every request made of the OS credential store is recorded
  in a proof-only log, so the contracts say which accounts are read,
  written and removed, and what follows from each answer), the checks on
  HTTP replies and the reading of their JSON bodies, the feed and profile
  mapping of both platforms, and the player window rules. Calls into
  `url`, `sha2`, `base64`, `getrandom`, `keyring` and `serde_json` stand
  behind small trusted wrappers whose contracts are documented where they
  are declared.
- `app/` is the unverified shell: SQLite through `rusqlite`, HTTP through
  `reqwest`, the TCP listener, the browser, and the window host.
- `tests/` exercises the library on concrete values.
