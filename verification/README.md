# openhuman_meet

A meeting agent for Google Meet. It joins a call in a headless browser, follows
the captions and the audio, answers when it is spoken to, and speaks the answer.

- `src/` decides: the course of a turn, the requests to the speech and language
  providers and what their replies mean, the join flow, the caption and audio
  bridges, the registry of sessions, how a session starts and stops. All of it
  is verified with Verus: the contracts are exact, but where something is drawn at
  random, which states what holds of every draw; and the `law_` proof functions
  state what holds of whole runs.
- `app/` does: HTTP, the browser's socket and process, timers, settings on disk.
  It asks `src/` for the next step, carries it out, and hands back what came of
  it. `app/host.rs` names what the surrounding program has to provide.
- `tests/` runs the library with the real serde_json, base64 and uuid.

Believed without proof are the wrappers around serde_json (`src/json.rs`), base64
(`src/base64_text.rs`) and uuid (`src/meet_headless/browser.rs`), and the
specification of `String::push` (`src/text.rs`). Each says in its comment what it
claims of the function it calls.
