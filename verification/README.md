# fullstack_backend

A phone book served over HTTP (`GET`/`POST /persons`, `DELETE /persons/{id}`) with
conditional GET: the user list carries a strong entity tag, recomputed only after the
table changed, and a request whose `If-None-Match` names the current tag gets `304`.

- `src/` is the verified library (Verus): the user model and the handling of what the
  database answers (`model`, `db`), the JSON text of users (`json`), entity tags
  (`entity_tag`), the shared cache state (`appstate`) and the handlers' decisions with
  the laws that relate them (`api`).
- `app/` is the server: actix-web routes, the SQLite pool, request/response JSON, and
  static error pages. It reads the request and the database, calls the library, and
  writes the answer.
- `tests/` runs the library on concrete values.
