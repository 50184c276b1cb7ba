# client

The game client of Paradox Plus, a golf board game, split in two:

- `src/` is the verified library: the offline server that plays a practice
  match (wager drafts, banana slides, the pause after a hole, the end of a
  round), ball movement on the course track, the scorecard and leaderboard
  arithmetic, what the client keeps of each server update, and the choices
  behind every screen, button and sound. Each public function states its
  result in its `ensures`; `laws.rs` holds the properties that span several
  functions.
- `app/` is the Bevy program around it: windows, meshes, input, audio
  playback, the network channel and the postcard wire format. It calls the
  library for every decision.
- `tests/` runs the library on concrete matches.
