# respeaker

The verified core of a voice pod and of its control tool, written in
[Verus](https://github.com/verus-lang/verus).

- `src/motion` — timed motion scripts: which timelines are lawful, their JSON
  text, and the schedule that runs the latest one.
- `src/presence` — presence intents and the lease they hold.
- `src/streamer` — the audio streamer: what a wake waits on, when a connect is
  due, one voice segment and the loop around segments as state machines, and the
  telemetry tick that opens and closes them.
- `src/psk_link` — the TLS link: waits, session bookkeeping, the handshake.
- `src/transport` — the serial link: frames out of bytes, requests and responses,
  device text made safe for a terminal.
- `src/podctl` — the control tool: which input makes which command, which pod is
  meant, and what the operator is told.
- `src/jsonl`, `src/secrets` — event lines, and the modes of secrets files.
- `src/json`, `src/text`, `src/clock`, `src/protocol` — what the others share.

A function that needs the outside world is split: the library says what to do and
what an answer means, and `app/` does it. `app/` holds the `podctl` program and the
edges of the pod's threads. Calls into other crates that only compute stand in the
library behind small functions whose contracts are stated and not proved; each says
so where it is declared.

The laws of each module are its public proof functions; those of a voice segment and
of the streamer loop have files of their own (`segment_laws`, `run_laws`).
