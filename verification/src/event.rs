use vstd::prelude::*;

verus! {

/// A point scored; the game does not send these yet.
#[derive(Clone, Debug)]
pub struct ScoreEvent {
    data: i32,
}

/// An entity of the game world, as the rules compare entities: by index and
/// generation.
#[derive(PartialEq, Eq, Structural, Clone, Copy, Debug)]
pub struct EntityKey {
    pub index: u32,
    pub generation: i32,
}

/// What the screens read of a window event: whether it is a press of the
/// escape key and whether it is a press of the return key.
#[derive(PartialEq, Eq, Structural, Clone, Copy, Debug)]
pub struct KeysDown {
    pub escape: bool,
    pub enter: bool,
}

/// What the screens read of a user-interface event: whether it is a click,
/// and the element it concerns.
#[derive(PartialEq, Eq, Structural, Clone, Copy, Debug)]
pub struct UiInput {
    pub click: bool,
    pub target: EntityKey,
}

/// An event handed to the current screen.
#[derive(Clone, Debug)]
pub enum GameInput {
    Window(KeysDown),
    Ui(UiInput),
    Score(ScoreEvent),
}

} // verus!
