# Actress

Actress is an actor framework for Rust, with small processes communicating by
sending messages to each other. Its logic is verified with Verus.

* `src/` is the verified library. An actor runs on a `Host`, which names the
  types that a program supplies: the envelopes that carry any message of an
  actor, the locks, the threads. What holds of the library as a whole stands in
  `src/laws.rs`.
* `app/` is a program around the library. It supplies a host on a tokio runtime,
  serves actors with hyper, and holds a few demonstrations.
* `tests/` runs the library.

Sending a message has no result that a contract could speak of, so the functions
that send give back a receipt. Nothing but a send makes one.

An actor ends when it is asked to stop, when a handler panics, or when nobody else
has a mailbox of it and its queue is empty. A supervisor learns of the end of its
workers, and workers learn of the end of their supervisor.

Known limitation: the ids of actors are `usize`, so a program that starts a lot of
actors runs out of them.
