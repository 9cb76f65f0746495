# runpod_client

A client library for the RunPod cloud API, verified with Verus.

`src/` is the verified library. It plans every request (method, URL, GraphQL
query and body), builds the bodies that create pods, and shapes the API's replies
into the results callers get; each function states its result in its contract.

- `text`: Unicode whitespace, trimming, the comma-separated port lists, joining log lines.
- `env`: environment variables and `StringMap`, a string map without repeated keys.
- `json`: the GraphQL request body, framed around `serde_json`'s string literal.
- `graphql`: the GraphQL queries and the shaping of their responses.
- `create`: the requests that create pods and the bodies made from them.
- `pods`, `volumes`, `endpoints`, `catalog`: the API's data, and pod summaries.
- `client`: the client handle and the REST/GraphQL requests of each operation.
- `number`: floating-point numbers, carried as their bit patterns.
- `laws`: properties that span functions, proved.

`app/` sends the requests with `reqwest`, reads and writes JSON with `serde`
(through copies of the library's types that carry serde's derives), and offers
the operations as the async trait `RunpodApi` on `RunpodClient`.
