# Business approval

Durable human business decisions: a requester asks for an approval, and exactly one
terminal step ends it, with the evidence of who took it.

The library under `src/` is verified with Verus.

- `identifiers`, `text`, `timestamp` and `schema` hold the syntax of names, instants
  and the owned schema.
- `config` and `admission` say who may do what, and what is well formed. `operation`
  starts each operation, and `lifecycle` and `operator` come before and after them.
- `storage` reads rows, `statement` holds the statements, and `flow` carries each
  operation on from one reply of the database to the next.
- `response` answers an operation with what came of it.
- `table` gives the statements their meaning on a table of requests, and `laws` states
  and proves what holds of the library as a whole.

`tests/` runs the library against a table in memory. `app/` holds the plumbing: the
asynchronous operations, the PostgreSQL access, secrets, and the serialised
configuration.
