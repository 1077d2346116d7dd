# kimojio

The logic of a runtime that keeps its tasks on one thread and does its I/O
through the kernel's ring, with an HTTP client and server on top. The functions
of the library state what they do in contracts that Verus proves, all but those
few that call other crates.

- `src/` is the library. It holds no task, no descriptor and no socket. Where a
  task would wait, a function returns what to wait for, and takes what came of
  the wait. Channels, locks, clocks, pipes, ring operations and scopes stand at
  the top; `src/web/` holds HTTP: messages, the pool of connections, the shared
  HTTP/2 session, and the loops of client and server as machines of phases.
- `app/` puts the library to work: futures, wakers, descriptors and connections
  around the same types. It asks for an event loop (`runtime.rs`) and for the
  state machines of the HTTP protocols (`driver.rs`) as traits.
- `tests/` runs the library on concrete values.

What the library believes of other crates stands in a few functions marked
`external_body`, each with a comment that says what is believed and of which
function: header maps, URIs and status codes of `http`, error numbers of
`rustix` and `libc`, contexts of `openssl`, and text of std. Of the words in
which the operating system and OpenSSL describe their errors nothing is believed.
