# backend_llm_anthropic

An adapter between a provider-independent chat engine and the Anthropic Messages API, written and
proved in Verus.

- `src/` is the library. It turns the engine's request into the body of a `POST {base_url}/messages`
  call, the answer into the engine's response, and a streamed answer into the engine's events; it
  says what a failed call means and what an operator may configure. Every function has a contract
  over a mathematical model of its data (`JsonView`, `StreamView`, `ErrorView`, ...), and
  `src/laws/` proves what holds across functions.
- What the library takes from outside stands behind small functions with stated contracts: reading
  and writing JSON (`serde_json`, in `src/json.rs` and `src/value.rs`), HTTP headers (`reqwest`, in
  `src/headers.rs`), and a few functions of std.
- `app/` is ordinary Rust around it: the HTTP client, the task that reads a streamed answer, and the
  configuration file.
- `tests/` runs the library with the real crates.

Structured output is emulated. Where the operator declares an output schema, the model is offered a
tool called `respond` whose input the schema describes. A call of that tool becomes the content of
the response, as JSON text, and ends the turn.
