# tracey

Core of a desktop time tracker: timers and time entries, the client /
project / task / tag hierarchy, idle detection, window-activity tracking,
screenshots, automatic classification of activity (heuristic rules and a
TF-IDF model) with an active-learning queue, and sync to an external
PostgreSQL database.

## Layout

- `src/` — the library, verified with Verus. The rules and decisions live
  here with contracts: request validation and error codes, pagination,
  partial updates, the idle tracker, the screenshot scheduler, the activity
  tracker and its deny list, feature extraction, heuristic matching, the
  bag-of-words side of TF-IDF training and prediction, the classifier's
  decision order, the active-learning snooze rules, the sync state and cycle
  bookkeeping (including the scan cursor), screenshot frame encoding,
  log-line formatting. Public `law_*` proof functions state the
  properties that hold across calls.
- `tests/` — tests of the library on concrete values.
- `app/` — the shell around the library: SQLite storage and migrations, the
  command handlers (whose existence and uniqueness checks are queries), the
  background loops, the floating-point arithmetic of the TF-IDF model, the
  composite logger, the keychain and the PostgreSQL client. Platform hooks
  and screen capture are supplied by the window shell.

Calls into chrono, ulid, serde_json, image, std's clock and std's Unicode
tables that the library makes go through small trusted wrappers whose contracts name what they
return; those contracts are the only unproved statements the library rests
on.
