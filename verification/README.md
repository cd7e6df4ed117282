# sendspin-tui

A terminal player for a Sendspin synchronized-audio server, with its logic
written in Verus and verified.

- `src/` is the verified library: the player state and how protocol events
  change it (`app`), the event and command types (`event`), the decisions of
  the protocol task (`protocol`: what each server message and user command
  leads to, controller commands, stream acceptance, frame checks, notices),
  the hello message, reconnection backoff and device queries and selection
  (`shared`), key bindings (`tui`) and the lines the screen shows, piece by
  piece with their colours (`ui`). The clock is monotonic: times are
  nanoseconds since the state was created. Laws about these are stated and proved as `law_*` proof functions.
- `app/` is the program around it: command line, network and audio through
  the `sendspin` and `cpal` crates, and drawing with `ratatui`. Started under the
  name `sendspin-daemon` (for instance through a link), the program runs the
  headless daemon (`app/daemon.rs`) instead of the terminal player.
- `tests/` runs the library on concrete values.
