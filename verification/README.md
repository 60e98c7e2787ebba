# alist_uploader_linux

The verified core of a web-based manager for uploads to an Alist server,
written in Verus.

- `src/` is the library. Every function there carries a contract that
  Verus proves: the upload task model and its lifecycle (`task`), the queue,
  history and blocked-file records (`records`), settings and their initial
  values (`config`), error answers (`error`), directory listings and the
  file browser's starting places (`listing`), collected files (`files`),
  the upload speed limiter (`rate_limiter`), data file locations
  (`storage`), and the path, text and time rules underneath (`paths`,
  `text`, `time`). Calls into chrono, uuid, getrandom, dirs and std (`path`, `time`) sit behind
  small trusted wrappers whose doc comments say what is assumed.
- `app/` is the HTTP service around it (axum, tokio): file and directory
  I/O, JSON storage, serialisable copies of the library types, and the
  routes.
- `tests/` exercise the library on concrete values.
