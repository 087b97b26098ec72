# rquickjs_core memory accounting

Verified accounting of the memory a QuickJS runtime uses.

- `src/runtime/memory.rs`: `ExternalMemoryTracker` counts host-owned bytes
  attributed to a runtime; `ExternalMemoryAllocation` is one account in it,
  resized and released through its tracker. Every operation keeps the count
  equal to the sum of the sizes of the accounts not yet released (`wf`), and
  the proof functions at the end of the file state what sequences of
  operations do to the count.
  An account leaves the count only through `release`; dropping it without
  releasing leaves its bytes counted (the `app/` handle releases on drop).
  `RuntimeMemoryUsage` combines the engine's report with the external count.
- `src/runtime/ledger.rs`: the sum over a tracker's ledger and its lemmas.
- `src/qjs.rs`: the engine's memory report as plain values.
- `app/`: the shared handle that runtimes and host resources hold (a lock
  around one tracker, with accounts released on drop) and the `Mut` lock type.
