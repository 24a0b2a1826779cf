# codex_history_store

State and thread-history storage that runs on SQLite and PostgreSQL alike, and the migration from
one to the other. The library under `src/` is verified with Verus; `app/` holds the programs and the
store around it: arguments, files, connections and the services of the workspace.

## Library

- `placeholders`, `value`, `db`, `any`: SQL with numbered parameters, query building, and the parts
  of `sqlx` behind them.
- `schema`: names of schemas and tables.
- `rollout`, `json`, `time`: rollout lines and how they are read from the database.
- `history`, `history_sql`, `projection`: the statements that project rollout lines into the thread
  history, and the order that lines have to keep.
- `stored_history`: what those statements do to the rows of the tables, and the laws on them.
- `create`: what a new thread is created with.
- `tables`, `table_copy`, `sqlite`, `owners`, `counts`, `migration`: the migration of a state
  directory for one user.
- `destination`: what a migration leaves in the tables that it copies to.
- `legacy`: the projection of rollout files that were written before the history was paginated.
- `error`, `text`: errors, and the text that messages and statements are put together from.

A migration and a legacy projection are state machines: each event gives the next action, and the
programs perform the actions.

What is trusted is marked `#[verifier::external_body]` or `assume_specification`, with a comment that
says what is claimed of which outside function.
