# async_filelike

Asynchronous operations on file-like objects, such as files, pipes and the standard output.

`src/` is the library, verified with Verus. It decides; it does not wait, block or make system
calls. A `Handle` hands its operations to a thread pool or to a completion queue, an `Adaptor`
adds a position and a buffer, and `runtime` and `events` let any number of tasks share one
completion queue.

`app/` does what the library decides: it implements the asynchronous I/O traits, opens and removes
files, and talks to the completion queue (through the `submission` crate) and to the thread pool.

`tests/` runs the library.
