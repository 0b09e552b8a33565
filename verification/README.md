# envoix_ffi

The rules behind the native bindings of Envoix, a peer-to-peer file transfer
tool, as a verified library. Mobile and desktop clients see plain records; the
library decides how a request is routed, how a card moves through its states,
what a failure is called and what a platform destination may do. The functions
under `src/` carry contracts that Verus proves. Taken on trust are a few calls
into the standard library, `base64` and `getrandom`, each in a small wrapper or
specification of its own; of the two functions that read the clock nothing is
promised.

## Layout

- `src/text.rs`, `hex.rs`, `tokens.rs`, `paths.rs`, `clock.rs`, `text_map.rs`:
  texts, encodings, paths, time and a map keyed by texts.
- `src/logging.rs`: the lines of the diagnostic timeline.
- `src/api/`: the bindings of Manifest-v2 sessions. Invitations and routes, jobs,
  sessions, platform destinations, failures, rooms, nearby invites, the
  application contract and the desktop agent.
- `src/bridge/`: the bindings of transfer cards. The transfer queue, attempts
  and fallbacks, durable records and their restoration, and Manifest cards.
- `tests/`: tests against the compiled library.
- `app/`: the asynchronous runtime around the library. It performs what the
  library decides: it runs the engine's attempts, waits, calls observers and
  stores records.

## How a module is built

Each record has a ghost view, and each function states its result over the views
of its arguments. What the transfer engine, the platform or the clock answers is
an argument; what observers are to be told is returned as a list of calls. Loops
that wait on the network are step functions: `app/` performs a step and hands the
outcome back.

Properties that relate several functions stand as public proof functions next to
the functions they speak of.
