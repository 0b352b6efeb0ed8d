# game

The logic of a small multiplayer first-person game, verified with Verus.

- `src/` is the verified library: cursor and pause handling (`cursor`),
  keyboard motion intents (`input`), the run-once guard of the web client
  (`launch`), the shared simulation rate (`timing`), the server's status
  report schedule (`heartbeat`), the certificate digest that clients pin
  (`digest`), connection settings (`net`) and the server's start-up and
  connection decisions (`server`).
- `app/` holds the engine systems, file I/O, the floating-point motion rules
  and the serializable copies of the protocol types.
- `tests/` runs the library on concrete values.
