# passcode_forwarder

The database layer of a Telegram bot that collects Ingress passcodes, keeps
the users allowed to send them, the Intel accounts (cookies) that redeem them,
and the history of redemption attempts, in SQLite.

- `src/` is verified with Verus.
  - `statement`: every SQL statement, its text and the values bound to it.
  - `database`: the statement behind each operation, and the decisions taken
    from what an earlier statement returned (approving a user, storing an
    account session, recording the client version, migrating the schema).
  - `session`: serving one request as a sequence of actions (run a statement,
    publish an event, reply), decided step by step from the answers.
  - `startup`: creating and migrating the schema when the database opens.
  - `model`: what the tables hold (finitely many rows, `wf`) and what each
    statement does to them; `law_faithful_oracle_exists` shows that the
    database's answers the laws assume can be given.
  - `laws`: what serving each request does to the tables, proved over the
    model for every well-formed store.
- `app/` holds the SQLite connection, the clock, the channels and the task
  that performs the actions.
- `tests/` runs the decisions on concrete answers.
