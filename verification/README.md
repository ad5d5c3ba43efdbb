# construct_tui

The core of a terminal client for the Construct messenger, written in Verus: what is shown, what keys
do, how sessions are protected, how messages are stored and how the messaging core's requests are
carried out.

- `src/` is the verified library.
  - `app` is the client as a state machine: keys, reports and replies go in, effects come out.
  - `view`, `draw`, `layout` and `screens/` say what is painted.
  - `config`, `auth`, `crypto`, `codec` and `secret` protect the session and prove who a device is.
  - `storage` and `bridge` keep messages, contacts, acknowledgements, keys and records in SQLite.
  - `orchestrator_task`, `streaming`, `engine_adapter` and `grpc` stand between the client, the
    messaging core, the engine and the server.
  - `text`, `clock`, `ids` and `keys` are helpers.
- `app/` is the program around it: command line, terminal, files, network and tasks. It needs the
  crates `construct_core` and `construct_engine`.
- `tests/` are tests of the library.

What outside crates do is stated in the contracts of the functions marked
`#[verifier::external_body]`; a comment above each says which function it calls and what is claimed of
it.
