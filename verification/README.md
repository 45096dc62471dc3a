# mpc_containers

Launch plans for the containers of a local multi-party-signing network: signing nodes,
LocalStack, the NEAR Lake Indexer and the Datastore emulator.

- `src/` is the verified library. It decides which image is run with which arguments, where
  a container is reached, when a Docker network has to be created, and which part of a log
  stream is printed. A launch is a chain of stages: each one names what is to be done on
  Docker, and is consumed by the reply.
- `app/` performs the stages with `bollard` and `testcontainers`.
- `tests/` runs the library on concrete values, with the real key and hex crates.

Keys are handled by `near-crypto`, `near-workspaces` and `hex`. What the proofs take for
granted of them is stated in `src/keys.rs`.
