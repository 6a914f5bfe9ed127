# monitor_server

A web server that watches Binance futures accounts: it signs requests to the
exchange's REST API, keeps session tokens for the web front end, and serves
trades, positions, transfers and equity curves from a MySQL database.

- `src/` is the verified library (Verus): query strings and HMAC signatures of
  venue requests, the retry decisions of the HTTP client, the choice of SQL
  tables and the text of queries, the decoding of the exchange's JSON answers
  and their shaping into report rows, the request-body size limit and session tokens.
- `app/` is the server around it: `main`, the actix-web routes and handlers,
  the MySQL and HTTP calls, and the account summaries that add up amounts in
  floating point.
- `tests/` runs the library on concrete values.
