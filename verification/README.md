# llama_cpp

A client of the llama.cpp server, verified with Verus.

- `src/` is the library: chat messages in the application's and in the server's form, completion
  requests, replies, completions that arrive piece by piece, and the heads of HTTP requests. Every
  function has a contract that says what it returns. The modules whose names end in `laws` hold
  what is true of several functions together.
- `tests/` runs the library on concrete values.
- `app/` talks to the server: it sends requests with `reqwest`, reads and writes JSON with
  `serde`, and runs the loop that reads a stream.

The library calls `serde_json` for JSON values. What it relies on there is stated in
`src/json.rs`; the one other outside call is the quoted form of a string, in `src/text.rs`.
