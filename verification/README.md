# async_ucx

Asynchronous bindings to UCX (Unified Communication X), built around a
verified core.

- `src/` is the verified library. It holds the UCX status codes and the
  `Error` type, the classification of status pointers, the request
  parameters and their builder, the calls that stream and tag operations
  hand to UCX, the decisions taken on what those calls return, the state
  machines of the `AsyncRead`/`AsyncWrite` streams, and worker addresses.
- `tests/` exercises the library on concrete values.
- `app/` makes the calls into the UCX C library (through `ucx1-sys`), holds
  the request futures, and implements tokio's `AsyncRead`/`AsyncWrite` over
  the library's stream state machines.
