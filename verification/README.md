# actum

An actor library: actors form a tree, receive messages through references,
and can be tested effect by effect with a testkit.

`src/` is the verified core, proved with Verus:

- `actor_path`: actor paths and the parent, child, ancestor and descendant
  relations between them, with their laws.
- `actor_task`, `behavior`: the interpreter of actor behaviors, as decisions
  from the current behavior and what the actor observed to what it does next,
  and how a stopping actor produces its output.
- `test_actor`, `testkit`, `effect`: the protocol between an actor under test
  and its testkit, including the receiver's cancel-safe state machine.
- `actor_ref`, `receive_message`: sending to an actor and what it receives.
- `remoting`, `children_tracker`, `resolve_when_one`, `actor_system`: the
  remoting service's steps, child counting, and system names.

`app/` is the runtime around it: channels, futures, tasks and the loops that
carry out the decisions of `src/`. `tests/` exercises the library.
