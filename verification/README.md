# sqlite_functions

Consumer-supplied scalar SQL functions for every connection of a SQLite connection manager,
with the rules verified by Verus.

SQLite keeps user-defined functions per connection. A function is registered once, checked
against the linked SQLite library, and captured by each database that connects afterwards; the
database installs the captured set on every connection it opens.

- `src/` is the library. It decides: which functions may be registered, what the registry holds
  afterwards, which call into SQLite comes next and what its result code means, how arguments
  are read and results are handed over, and what every error says.
- `app/` makes the calls. It holds the process-global registry behind a lock, the foreign calls
  into SQLite, and the `after_connect` hook of the connection pools.
- `tests/` runs the library on concrete values.

The library leaves the type of a float to its caller; the application uses `f64`.
