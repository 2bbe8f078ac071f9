# game_session

A session program for a word-guessing game on the Gear network. Players send
it `StartGame`, `CheckWord` and `CheckGameStatus`; it forwards what needs the
word game program to that program, one exchange at a time, keeps each
player's game (seconds and guesses left, result, guesses made), and answers
with `GameStarted`, `WordChecked`, `GameStatus` or `GameError`.

- `src/` is the verified library. `program.rs` holds the program as a state
  machine: `handle`, `message_sent` and `handle_reply` each take the state and
  one event and return the next state and what to do, and their contracts
  equal the spec functions `handle_next`, `sent_next` and `reply_next`.
  `game.rs` holds the rules of one game, `games.rs` the book of all games,
  `io.rs` the messages, `ids.rs` the identifiers, and `laws.rs` the proved
  properties that span several steps.
- `app/` is the program's entry points on the network (`init`, `handle`,
  `handle_reply`, `state`): they read messages with `gstd`, call the library,
  and send, reply, wait and wake as it decides.
- `tests/` drives the state machine, with a stand-in for the word game.
