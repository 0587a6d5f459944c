# async-scope

An asynchronous equivalent of `std::thread::scope`: tasks that are spawned within a scope run in the
current task and may borrow from the surroundings of the scope, which waits for all of them.

- `src/` is the verified library: what a scope, its tasks, their handles and the streams built on
  them decide and keep track of. What it takes from the `futures` crates, and what is believed of
  that, stands in `src/outside.rs`.
- `app/` is the asynchronous surface: the `scope!` macro, the futures and streams themselves, the
  polling of the tasks, the locks around shared state, and the raising of panics.
- `tests/` runs the library, whole scopes included, on a minimal runtime.

The functions named `law_*` state what holds of the library as a whole, such as that no task is lost
and that the values of a buffered stream come in order.
