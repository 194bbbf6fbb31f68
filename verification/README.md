# rust_ai_ready_stack

A web backend for authentication (session tokens in cookies, Google sign-in,
a local development sign-in) and retrieval-augmented chat (document ingestion
into a vector store, conversations with a chat model).

## Layout

- `src/` is the library, verified with Verus: the rules of sign-in and
  sessions, the error mapping of HTTP answers, the conversation store and the
  history given to the chat model, the chunking and batching of ingested
  documents, and the decisions of the database and vector-store adapters.
  Every public function states what it returns in its contract; the laws
  that span functions are public proof functions named `law_*`.
- `tests/` runs the library on concrete values.
- `app/` is the server around the library: configuration from the
  environment, the HTTP routes and middleware, and the adapters that talk to
  MongoDB, LanceDB, OpenAI and Google over the network.

Calls into outside crates that compute (JWT signing and checking, JSON field
reading, URL query building, path handling, the clock and random
identifiers) sit behind small trusted wrappers whose contracts are stated in
their doc comments.
