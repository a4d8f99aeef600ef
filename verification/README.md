# atomics_lab

Small concurrency exercises — spin locks, a one-shot channel, a bounded
producer/consumer queue, atomic counters, test-and-set flags — written as
verified Verus models.

- `src/` is the verified library. Each shared object is a plain-value model
  whose methods are single indivisible steps (a swap, a store, a
  compare-and-exchange, a push or pop), with contracts over spec views and
  public proof functions for the laws that relate the steps (what a receive
  returns of a send, ids handed out in order, additions commuting, the
  average of completely recorded times staying below the peak, at most one
  mark under sequentially consistent flags). Where the threads update
  several counters in separate steps, the steps are separate methods, and
  a reading between them can see a task only partly recorded.
- `app/` runs the demonstrations with real threads: every model sits behind
  a `std::sync::Mutex`, so each model step is atomic while threads
  interleave; parking, condition variables, timing and printing live there.
  Counters that live for the whole process are kept in process-wide
  statics, so repeated calls continue from where the last one stopped.
- `tests/` exercises the library on concrete values.
