# par_runtime

Verified core of a runtime's package identifiers, external-function
registry, bounded mailboxes and reducer loop, written in Verus.

- `src/pkgid.rs`: builtin package names and package identifiers.
- `src/registry.rs`: definition references and the table of external functions.
- `src/mailbox.rs`: the bookkeeping and replies of a bounded mailbox with a dead-letter stream.
- `src/channel.rs`: the tokio channel operations the mailbox relies on, with their stated contracts.
- `src/reducer.rs`: message filing, handle ids and the decisions of the reducer's loop.
- `app/`: the async glue (tasks, locks, link-time registration, serde forms).
