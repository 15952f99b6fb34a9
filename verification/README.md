# async_lock

Async synchronization primitives — a mutex with eventual fairness, a
write-preferring reader-writer lock with an upgradable reader, a barrier and a
single-threaded async cell — whose lock-state protocols are specified and
proved with Verus.

* `src/` holds the primitives. Each lock keeps its state word as plain data;
  operations take the lock by mutable reference, guards are tokens that are
  released explicitly, and each acquisition future exposes `poll_step`, one
  turn of its acquisition loop. Every lock has a numeric model (`MutexState`,
  `RwState`, `BorrowState`, `BarrierState`) with transition functions; the
  operations' contracts are stated over these models, and the proof functions
  next to them establish the laws (exclusion, invariants kept by every
  transition, release undoing acquisition, the barrier's generations).
* Wake-ups go through `event_listener` and `std::task`, behind small trusted
  wrappers in `src/signal.rs` and `src/task.rs`. Each event and each cell
  keeps a ghost record of the notifications it sent and the wakers it woke,
  so that the contracts say exactly who is notified or woken by each
  operation.
* `app/` runs the turns inside real futures and shares lock state between
  tasks behind a standard mutex.
