# review-protocol

The rules of the review protocol, between a manager and the agents that it
manages, as a verified library.

- `src/` holds every rule: what the bytes of the agent information frame mean,
  which versions a handshake admits, how an agent dispatches requests, how a
  package payload is accounted for, what a manager sends and when it awaits an
  answer. It performs no input or output. The dispatch of an agent and the
  install exchange of a manager are state machines that are handed what
  happened and answer with what is to be done.
- `app/` carries the rules out on QUIC streams: it serializes, sends, receives
  and calls the handlers.
- `tests/` runs the library on concrete values.

What is stated of single functions stands in their contracts. What holds across
functions stands in the public proof functions of `agent_info`, `client`,
`codec`, `collections`, `text`, `types::laws`, `request::package`,
`request::fallback`, `request::laws`, `server::api` and `server::install`.

Only two modules call into other crates: `codec` into `bincode` and `handshake`
into `semver`. The contracts of those calls are believed, not proved; the
comment above each one says what is claimed.
