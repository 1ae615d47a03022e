# pong

The rules of a two-paddle pong game, verified with Verus.

- `src/paddle.rs`: which paddles people move and which the computer moves.
- `src/systems.rs`: how walls and paddles turn the ball, how the computer
  steers, which input axis moves which paddle.
- `src/screens.rs`: which screen follows which input (loading, main menu,
  game, pause).
- `src/event.rs`, `src/scoreboard.rs`: the events the screens read and the
  score board.
- `app/`: the game itself on the amethyst engine. It measures positions and
  velocities (floating point), hands the library booleans and headings, and
  carries out what the library decides.
