use vstd::prelude::*;

verus! {

/// The wall a paddle guards.
#[derive(PartialEq, Eq, Structural, Clone, Copy, Debug)]
pub enum Side {
    Left,
    Right,
}

/// Who moves a paddle: a person at the keyboard or the computer.
#[derive(PartialEq, Eq, Structural, Clone, Copy, Debug)]
pub enum Control {
    Player,
    Computer,
}

/// The left paddle is the first player's; with nobody at the keyboard the
/// computer takes it.
pub open spec fn left_control(num_players: int) -> Control {
    if num_players == 0 {
        Control::Computer
    } else {
        Control::Player
    }
}

/// The right paddle is the second player's; with one player or none the
/// computer takes it.
pub open spec fn right_control(num_players: int) -> Control {
    if num_players <= 1 {
        Control::Computer
    } else {
        Control::Player
    }
}

/// How many of the two paddles people move.
pub open spec fn player_paddles(controls: (Control, Control)) -> int {
    (if controls.0 == Control::Player { 1int } else { 0int }) + (if controls.1
        == Control::Player {
        1int
    } else {
        0int
    })
}

/// Chooses who moves the left and the right paddle of a game with
/// `num_players` people at the keyboard.
pub fn paddle_controls(num_players: u8) -> (controls: (Control, Control))
    ensures
        controls.0 == left_control(num_players as int),
        controls.1 == right_control(num_players as int),
{
    let left = if num_players == 0 {
        Control::Computer
    } else {
        Control::Player
    };
    let right = if num_players <= 1 {
        Control::Computer
    } else {
        Control::Player
    };
    (left, right)
}

/// Every person at the keyboard gets a paddle, as long as there are paddles
/// left: the game has as many player paddles as people, but at most two.
pub proof fn lemma_one_paddle_per_player(num_players: u8)
    ensures
        player_paddles((left_control(num_players as int), right_control(num_players as int)))
            == if num_players <= 2 {
            num_players as int
        } else {
            2int
        },
{
}

/// The first player takes the left paddle: the right paddle is a player's
/// only when the left one is too.
pub proof fn lemma_left_paddle_goes_first(num_players: u8)
    ensures
        right_control(num_players as int) == Control::Player ==> left_control(num_players as int)
            == Control::Player,
{
}

/// More people at the keyboard never hand a paddle back to the computer.
pub proof fn lemma_more_players_keep_paddles(fewer: u8, more: u8)
    requires
        fewer <= more,
    ensures
        left_control(fewer as int) == Control::Player ==> left_control(more as int)
            == Control::Player,
        right_control(fewer as int) == Control::Player ==> right_control(more as int)
            == Control::Player,
{
}

} // verus!
