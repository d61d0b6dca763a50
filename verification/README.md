# graph

A bi-temporal knowledge graph for AI agent memory: nodes and edges carry a
valid time and a transaction time, versions are indexed and checked for
consistency, and queries ask what held at an instant, over a span, or how an
entity evolved.

The library (`src/`) is written in Verus and verified: every function states
in its contract what it returns, and the laws of the library (what a read
gives back after a write, how temporal ranges relate, what the rate limiter
admits at given instants) are proved as proof functions.

- `src/types.rs`, `src/time.rs`, `src/json.rs`, `src/text.rs`: the core
  values: identifiers, entity types, instants, temporal ranges, JSON values
  and their models, numerals and text.
- `src/temporal/`: the temporal index, the consistency checker, query
  plans for DynamoDB, and the reading of what the table returns.
- `src/graph/`: Gremlin queries, the reading of Gremlin results and of
  Neptune vertices and edges, subgraphs (and the stores an addition
  reaches) and neighbourhood cache keys.
- `src/memory/`: the searches and index mapping of the memory store, and
  the reading of its search hits and stored documents.
- `src/rag/`: the rule-based parts of entity and relationship extraction,
  and the nodes and edges a text adds to the graph.
- `src/mcp/`, `src/api/`: the MCP request handling and the API's reports
  and rate limiting.
- `app/`: the server and the services it talks to (DynamoDB, Neptune,
  OpenSearch, AWS), and everything that computes on floating-point scores.
- `tests/`: tests of the library.
