# whitenoise

The core of an end-to-end encrypted group messenger on Nostr: what it decides
and computes, written in Rust and verified with Verus.

- `src/` is the verified library. Every public function states what it returns
  or changes; the laws that relate several of them are public proof functions
  beside the functions they speak of.
  - `whitenoise/database/` plans and steps through database migrations, and
    says what each of them does to the rows it reads.
  - `whitenoise/event_processor/` decides what becomes of an event: retries,
    rate limits, welcomes, group messages, lists and profiles.
  - `whitenoise/discovery_sync_worker.rs` and `whitenoise/drafts.rs` hold the
    worker that rebuilds subscriptions and the unsent messages.
  - `whitenoise/nostr.rs` and `whitenoise/utils.rs` hold the few calls into
    `nostr_sdk` and `chrono` whose contracts are taken on trust.
- `tests/` runs the library on concrete values.
- `app/` is ordinary Rust around the library: SQLite, clocks, tasks, and the
  copies of library types that carry derives of other crates.
