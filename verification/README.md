# employees

Long-living worker threads managed by runtimes.

- `src/` is the verified library: the runtime's errors (`error.rs`), the thread
  settings (`settings.rs`), the shared stop flag (`shutdown.rs`), the decisions of a
  worker's main loop (`worker.rs`) and the bookkeeping by which a runtime supervises
  its workers and respawns the ones that panicked (`supervisor.rs`), with the laws
  they obey.
- `app/` spawns, observes and joins the threads around that core: the `Worker`,
  `Context` and `RespawnableContext` traits, `Runtime` and `ScopedRuntime`, the
  `Register`/`Connect` traits and the signal handlers of the graceful shutdown.
- `tests/` runs the library on concrete values.
