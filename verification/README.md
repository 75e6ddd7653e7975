# tealdrive

The core of a file-access service for Unix accounts, verified with Verus:
a web session asks for listings, previews, downloads and file operations
inside configured roots, and an unprivileged helper process does the
filesystem work as the logged-in user.

## Layout

- `src/` — the verified library.
  - `fs/` — relative-path validation and normalisation, resolution inside a
    root, and the service steps of each file operation (checks, the helper
    request, and what a helper answer turns into).
  - `policy/` — the operation policy (read-only roots, hidden and sensitive
    paths, web roots, disabled features) and root lookup.
  - `protocol/` — the binary frame: header, flags, message types, chunks,
    and the limits on payloads.
  - `helper/` — the helper side: request prechecks, refusals with fixed safe
    messages, listings (filtering, stable sorting, pages and cursors), text
    previews, chunked downloads, trash bookkeeping, length-prefixed IPC, and
    the steps of each helper operation and of one run of the helper process.
  - `auth/`, `api/`, `rate_limit/`, `audit/` — account policy, sessions and
    sign-in, login rate limiting, audit events and redaction.
- `app/` — the program around it: the HTTP login endpoint, the helper
  process and its filesystem calls, MessagePack encoding.
- `tests/` — tests of the library's public functions.
