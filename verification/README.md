# mio_uds_windows

Unix domain sockets for mio on Windows. mio's event loop works by completion
there, and its users expect readiness. This crate holds the state machines between
the two, written in Verus and proved.

- `src/` is the library. It never calls the system: its methods return the calls
  to make (`socket`, `task`) or the effects to carry out (`effect`), and take what
  came of them.
  - `address`: socket addresses and the paths that they name.
  - `socket`, `task`, `net`: sockets, and the sequences of calls that make them.
  - `stream_model`, `stream`, `stream_laws`: streams; what follows from everything
    that can happen to one, the code that does so, and what holds of every history.
  - `listener_model`, `listener`, `listener_laws`: the same for listeners.
  - `ready`: readiness sets. mio provides them; what is stated of its functions
    there is trusted.
- `app/` drives the library on Windows with mio, miow and winapi.
- `tests/` runs the library against a simulated system.
