# ironflow_rs

A worker agent that takes tasks from a queue (Redis or RabbitMQ), runs them
(commands, polled commands, file transfers, file watches, and composite
tasks made of these), and reports the results to a callback URL and a
result queue.

## Layout

- `src/` is the verified library, written in Verus. It holds the tasks and
  their results, the task processor as a state machine (`processor.rs`),
  and the decisions the services and the worker take around their I/O:
  how process outcomes become results, which storage backend a location
  needs, which file notifications become events and which paths match,
  how secret keys map to store paths, which delivery a received task came
  from, and what is done with a processed task. `trusted.rs` gathers the
  calls into other crates whose contracts are assumed.
- `tests/` exercises the library.
- `app/` is the program around it: the async services (process spawning,
  OpenDAL transfers, `notify` watching, Redis and RabbitMQ queues, Vault and
  AWS secret stores), serialisation of the library's types, and the worker
  loop that drives the processor's state machine.

## AWS Secrets Manager

`app/aws.rs` reaches AWS Secrets Manager through `aws-config` and
`aws-sdk-secretsmanager`. These two crates are left out of `Cargo.toml` to
keep the dependency tree small, so the program builds only once they are
added to `[dependencies]`; the library itself does not need them.
