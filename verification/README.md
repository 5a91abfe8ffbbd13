# xrpl

A websocket client library for the XRP Ledger's JSON API, with its logic
verified by Verus.

- `src/` is the verified library: amounts, transactions and their builder,
  the requests and subscriptions with the JSON they are sent as, a JSON
  document model (null removal, member lookup and update), the reading of
  the server's answers, and the decisions of the connection's loops (which
  message answers a request, when the connection is given up). Fresh request
  ids come from `uuid`, and answers are read as JSON by `serde_json`.
- `app/` is the asynchronous client around it: the websocket connection on
  `tokio` and `tokio-tungstenite`, the serde forms of the library's types,
  amounts given as floating-point numbers, and errors with `Display`.
- `tests/` runs the library on concrete values.
