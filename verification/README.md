# alternator_validator

Building blocks of a validator for vector search through ScyllaDB Alternator, verified with Verus.

The library in `src/` decides; it performs no I/O.

- `text`, `naming`: decimal numbers, table names drawn from a counter, keyspaces and indexes.
- `json`, `request`: models of `serde_json` values and of the HTTP requests of the AWS SDK, with
  the contracts that are taken from those crates without proof.
- `interceptor`: injects extension fields into the JSON body of a request before it is signed.
- `payload`: the extension fields that concern vector indexes.
- `cluster`: endpoints, client configurations, waits, and arguments of database nodes.
- `operations`: requests and waits, as steps of a scenario.
- `create_table`, `delete_table`, `query`, `update_table`: the scenarios.
- `scenario`, `run`: registration of scenarios, and their course from reply to reply.
- `database`: a model of what the steps do to the tables of a database, and the proof that in this
  model no scenario waits for something that does not come.

`app/` performs the steps with the AWS SDK. It leaves the control of the cluster and the client of
the Vector Store to the traits in `app/harness.rs`. The library holds no floating-point numbers:
`app/` hands it their texts.
