# gauc

A Couchbase client built around libcouchbase, with an interactive command
line and a REST interface.

- `src/` is the verified library:
  - `couchbase`: the libcouchbase vocabulary (status codes, callback and
    buffer kinds, storage modes), the commands sent to libcouchbase and the
    responses it delivers, with their text fields read as UTF-8.
  - `client`: the commands each operation sends, the outcome it reports for
    a response, the steps of opening a handle, and the request channel of a
    worker.
  - `cli`: how a typed line is split into words and what it asks for.
  - `web`: the routes of the REST interface and the JSON answers it gives.
- `app/` is the program: the libcouchbase C interface, the client and worker
  that drive it, the command-line loop and the iron server.
- `tests/` runs the library on concrete values.
