# transform_chain

Transform chains: ordered lists of transforms that a batch of messages passes through.

- `src/` is the library. Its functions are verified with Verus, but for ten small ones marked
  `external_body`, which call `metrics`, `tokio` or `format!` and whose contracts are believed; so
  are the contracts given to the `clone` of four outside types, and what the traits of
  `transforms.rs` ask of their implementations:
  - `wrapper.rs`: the wrapper that carries a batch through a chain, and the order in which it does.
  - `transforms.rs`: what a chain asks of its transforms and of their builders.
  - `builder.rs`, `validation.rs`: configured chains, what is wrong with them, and building chains.
  - `chain.rs`: passing a batch through a chain, and the account that is kept of it.
  - `buffered.rs`: a chain that runs in a task of its own behind a queue, with the callers' side and
    the task's side as steps between what has to be awaited.
  - `meter.rs`, `channel.rs`, `text.rs`: the handles of `metrics`, the channels of `tokio` and the
    text of `{:?}`, with the believed contracts that the rest relies on.
- `app/` runs chains on `tokio`: it awaits, reads the clock, spawns the task and logs.
- `tests/` runs the library against the real `metrics` and `tokio`.
