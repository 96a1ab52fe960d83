# pingora_runtime

Tokio runtimes for multi-threaded services, in two flavors: tokio's own
multi-threaded runtime, and a pool of single-threaded runtimes without work
stealing. What the library decides is verified with [Verus](https://github.com/verus-lang/verus).

- `src/` is the verified library.
  - `opts`, `dial9`, `duration`: options, and what they resolve to.
  - `tokio_rt`: tokio builders, runtimes and handles, and what is set on them.
  - `runtime`: the runtime and its builder.
  - `no_steal`: the pool of single-threaded runtimes.
  - `current`: which runtime the current thread should spawn onto.
  - `shutdown`: the order in which runtimes come down.
  - `worker_stack`: how deep into its stack a thread is.
  - `std_items`: what is taken for granted of the standard library.
- `app/` puts the library on the threads of a process: it starts and joins
  threads, keeps values per thread, writes traces and logs.
- `tests/` runs the library with real runtimes.

Names that begin with `law_` are statements about the library as a whole, each
proved.
