# postman-mcp

An MCP server for the Postman REST API. The logic lives in a library verified
with Verus; a thin binary serves it over stdio.

- `src/` — the verified library: the JSON model (`json`), text primitives
  (`text`), the API's data (`models`), the calls of each endpoint (`client`),
  collection trees, variable interpolation, authentication and request
  preparation (`utils`), and the decisions and outputs of every tool
  (`tools`). `outside` holds the trusted calls into `std`'s case
  mappings, `base64`, `reqwest` and `serde_json`; `text::push_char` is the
  one other trusted item (`String::push`).
- `tests/` — tests of the library on concrete values.
- `app/` — the binary: environment and stdio, HTTP with `reqwest`, `serde`
  copies of the library's types, and the `rmcp` tool declarations.

Run it with `POSTMAN_API_KEY` set; `POSTMAN_WORKSPACE_ID` optionally picks the
workspace of the global variables.
