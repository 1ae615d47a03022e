use vstd::prelude::*;

verus! {

/// Points of the two players.
pub struct ScoreBoard {
    pub score_left: i32,
    pub score_right: i32,
}

impl ScoreBoard {
    /// A board on which neither side has scored.
    pub fn new() -> (board: ScoreBoard)
        ensures
            board.score_left == 0,
            board.score_right == 0,
    {
        ScoreBoard { score_left: 0, score_right: 0 }
    }
}

} // verus!
