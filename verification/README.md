# subc_daemon

The decisions of the `subc` daemon, verified with Verus.

`subc` is a per-user daemon. It supervises modules, lets clients open routes to
them, and answers questions about both on channel 0 of every connection. This
crate holds what the daemon decides; reading, writing and waiting stand in `app/`.

## Layout

- `src/bootstrap`: where the daemon's files are, which port it takes, whether
  another daemon runs, in which order it starts its parts and how it ends.
- `src/daemon_config`: the configuration, from the decoded file to the modules as
  they are run, with every rule that refuses a file.
- `src/control`: what becomes of each frame on channel 0: HELLO, `route.open` and
  the bind relayed for it, the breaker and the cap in front of it, catalog updates,
  health probes, rescans, capability denials, and what is told when routes go.
- `src/text`, `src/text_map`, `src/key_order`, `src/span`, `src/paths`, `src/json`,
  `src/problems`: characters, ordered maps and lists, lengths of time, the paths of
  Unix and of Windows, and the questions asked of a JSON text.
- `tests`: the same on concrete values.
- `app`: files, sockets, signals and the environment around the library.

## How contracts are written

A type that holds strings has a view over characters. A function's answer is an
open spec function over those views, and its `ensures` says that it gives exactly
that answer. What the registry, the supervisor or the forwarding table say is
handed in as facts, so each decision is proved for whatever they may say. What
holds across functions stands as public proof functions beside them.

A few functions call `std` or `serde_json` and are trusted; each says in its
comment what is taken on trust.
