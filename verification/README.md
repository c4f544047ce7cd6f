# calibri

A small statistics service over a client, call and email database, with its
logic verified by Verus.

- `src/` is the verified library:
  - `queries.rs`: the SQL statements (all of them `SELECT`s) and how the date
    range and the status filter enter them;
  - `collector.rs`: the state machine that decides, round trip by round trip,
    which statement runs next when gathering the calls and emails of all
    active clients or of one client, with the laws on what it gathers and in
    which order it asks;
  - `response.rs`: how an endpoint frames its answer (status code, `ok` or
    `error`, the elapsed time in milliseconds, data or error text);
  - `models.rs`: the rows and the request parameters.
- `app/` is the HTTP service around it (axum, sqlx, tokio): it runs the
  statements the library asks for and serialises the answers.
- `tests/` runs the library on concrete values.
