# chat

The logic of a chat service, written in Verus and proved against its
contracts:

- `ai`: the conversation model and the request and reply bodies of the
  Ollama and OpenAI chat-completion adapters (URLs, headers, message
  conversion, extraction of the answer).
- `agent`: the rules that accept or refuse the creation and update of a
  chat's agents, and the rows they write.
- `notif`: which bot, if any, answers a newly posted chat message, and the
  reply it posts.
- `pgvector`: the default settings of the pgvector store.
- `commands`: the greeting command of the desktop client.
- `text`: decimal rendering used in error messages.

`app/` holds the I/O around it: HTTP calls with `reqwest`, the agent table
and the notification listener with `sqlx`, and serde copies of the
library's types.

## What lives outside this crate

Some parts of the service are not here, because they are made of
components that live outside this crate:

- The analytics server (its router, its state with the ClickHouse client
  and the token verifier): it is assembled from the service's
  configuration, authentication middleware, event handlers and OpenAPI
  modules, and from `axum`, `tower-http` and `clickhouse`.
- The desktop client's `get_app_dir` and `get_config` commands: they read
  the client's application directory and configuration through `tauri`.
- `PgVector::try_new`'s database setup, the pgvector persistence and
  retrieval (storing vectors, cosine and Euclidean similarity search), and
  the retrieval-augmented answer pipeline built with `swiftide`: the store
  plugs into `swiftide`'s traits, which this crate does not implement.
  `app/bot.rs` therefore takes the answer pipeline from its caller
  (`Answerer`); in the service it is the `swiftide` pipeline over the
  OpenAI models `text-embedding-3-small` (embeddings) and `gpt-4o-mini`
  (prompts).
- The bot server's `AppEvent` enum, whose payloads are the service's chat
  types.

Listing a chat's agents is a plain query, `app/agents.rs`
(`AgentStore::list_agents`), which returns them ordered by id.
