# unity_mcp

The Unity MCP server: an MCP server over standard input and output that
drives the Unity editor through a bridge, with a gRPC stream service that
validates, caches and answers asset operations.

- `src/` is the library, verified with Verus: request validation and
  security rules, path normalisation, feature negotiation, endpoint and
  setting parsing, IPC framing and request bookkeeping, the response cache
  (keys, least-recently-used store, time to live, gzip of the JSON text and
  reading it back), resource pools, the integer bookkeeping of performance
  monitoring, and the decisions of the MCP tools and of the bridge
  connector. Each public function states what it returns in its contract;
  the laws that span functions are public proof functions.
- `tests/` runs the library.
- `app/` is the program around it: the Tokio entry point, settings read
  from the environment, the MCP service over rmcp, the connector loop, the
  worker pool and the floating-point figures of monitoring.
