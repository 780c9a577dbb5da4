# colorless

Stackful coroutines that wait for futures: a function that waits needs no colour
of its own. A coroutine runs on its own stack, suspends itself while a future that
it waits for is pending, and goes on when the task that polls it is woken.

- `src/` is the library, verified with Verus.
  - `context` is what a thread keeps while coroutines run on it: the stack of
    await contexts and the thread-local value (`tlv`), and how both move between
    the thread and a coroutine. `context_laws` states what that adds up to: a
    coroutine gives every thread back as it found it, and keeps the thread-local
    value of its maker.
  - `coroutine` makes, polls and takes apart coroutines; `SyncIntoCoroutine` is one
    that has not begun and can go to another thread. `fiber` switches stacks and
    keeps the record of it, `memory` provides the stacks.
  - `config`, `executor`, `launch` and `worker` hand jobs to a fixed number of
    workers, start the workers and decide what they do. `executor/handlers` and
    `naming` keep the functions that a configuration sets, each out of reach until
    it is due, `maker` makes the functions of a broadcast; `counter` counts the workers that are not blocked.
    `executor_laws` is about the jobs, `deadlock_laws` about that count.
  - `channel` works on the ends of the channels between them. `port` keeps track of
    which ends belong together, of the room that is left, of which messages may be
    sent and of what was sent.
  - `lock` holds a mutex and a lock for readers and writers, `condvar` a condition
    variable over the notifications in `event`. They suspend coroutines and block
    threads.
  - What must have happened is stated with proofs that only the call in question
    makes: a `Receipt` of a message, a `Tally` of a change of the count, a `Called`
    of a handler, a `Heard` of a notification.
- `app/` is the runtime around the library: thread-local cells, the impls of
  `Future`, and threads.
- `tests/` runs the library, with real coroutines, channels and locks.
