# hablemos_backend

Backend of the Spanish–English community website: a REST API over Postgres for
a directory of language-learning podcasts and movies, and for dead-link reports
that users file against podcasts.

The crate is in two parts.

- `src/` is a library verified with Verus. It holds the request logic:
  - `validation`, `models`: the bodies of the create and update requests and
    the rules their fields must meet (lengths in characters, URLs, the accepted
    languages and levels), reported field by field;
  - `repo`: query plans — the SQL text and bound arguments of the filtered,
    paginated listings and of the partial podcast update;
  - `routes`: pagination metadata, the API's errors, the answers to missing
    rows and empty requests, and the reporter address taken from proxy headers;
  - `text`, `ids`: the string helpers and the text form of ids that these use.

  Contracts state each result over spec functions, and proof functions state
  the properties that tie the parts together (for example, that a partial
  update assigns exactly the fields it is given, and that a listing's count and
  page use the same conditions).

- `app/` is the HTTP server around it: axum handlers and routing, the sqlx
  statements that run the plans, and the serde forms of records and bodies.
