# wws_worker

The decisions that a Wasm worker server makes for one worker, verified with Verus.

- `src/` is the library. `identity` and `path` say where a worker lies and what it is
  called, `config` and `features` what its owner asked for, `worker` how it comes up,
  `stdio`, `wasi` and `context` what its sandbox holds, and `run` what becomes of a
  request. `engine` compiles its code, and `errors` puts failures into words.
- `app/` does what touches the world: it reads files, opens directories, talks HTTP
  and JSON, and runs the guests. It hands what came of each step to the library.
- `tests/` runs the library with the real Wasm engine.

Bringing up a worker and answering a request alternate between decisions and steps
that touch the world. Each such point is a type of its own (`Located`, `Configured`,
`Run`, `Guest`, ...), whose method takes what came of the step and gives the next one.

Paths are the bytes that Unix keeps them as.
