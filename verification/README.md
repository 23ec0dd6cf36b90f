# spark_connect_proxy

A proxy server for Spark Connect, with its logic verified in Verus.

Users create applications through the server's API. The server launches each as a Spark session,
which calls back with its address. Requests that carry an application's token are sent on to it.

- `src/` is the verified library. It decides: which settings a session is launched with, who a
  caller is, what the store is asked, what a request is answered. Each function states in its
  contract what it decides, and public proof functions (`law_..`) state what holds across
  functions.
- `src/trusted/` holds the calls into outside crates, with what is taken for granted of each.
- `app/` is the program: the command line, the listener, the store, the network. It does what the
  library decides and reports what came of it.
- `tests/` runs the library, with the outside crates.

| module | what it is about |
| --- | --- |
| `launcher`, `venv` | settings and commands of Spark sessions, virtual environments |
| `config` | the configuration and its defaults |
| `application` | the table of applications: rows, filters, updates |
| `routes` | the API: creating, describing, listing and ending applications, and their reports |
| `proxy` | connections to applications, shared by token |
| `connection` | the way to an application, one for each connection |
| `grpc`, `error` | what callers are told where a request fails |
| `auth`, `system_auth`, `headers` | authenticating users and sessions |
| `server`, `tls` | serving, pruning, checking, TLS |
| `client` | the client of the API |
| `migration`, `models`, `store` | the schema, and the operations of a plain store |
| `text`, `text_map` | text, and maps by name |
