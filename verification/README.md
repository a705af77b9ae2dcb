# rmcp-proxy

A proxy between MCP clients and servers. As a client it offers a remote SSE or
streamable HTTP server on the standard streams, and authenticates with OAuth where the
server asks for it. As a server it offers a command on the standard streams to SSE or
streamable HTTP clients.

## Layout

- `src/` is the library: the logic of the proxy, verified with Verus. It reads no file
  and sends no request. Each operation is a value (`...Step`) that says what is to be
  done next outside; what came of it is handed back as a value (`...Event`), and `next`
  gives the step that follows.
  - `auth`, `oidc`, `registration`, `authorize`, `tokens`: the OAuth client.
  - `config`, `utils`, `text`: files, locks, limits, texts.
  - `coordination`, `callback_page`: processes that authenticate against one server.
  - `connection`, `streamable_http_client`, `sse_client`: the clients.
  - `sse_server`, `cli`: the servers and the command line.
  - `outside`: every call into another crate, with what is relied on.
  - `laws`: what holds of every run of an operation, and of several together.
- `app/` is the program: it performs the steps.
- `tests/` runs the library.
