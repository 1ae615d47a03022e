use vstd::prelude::*;

use crate::event::{EntityKey, GameInput, KeysDown, UiInput};
use crate::paddle::{left_control, player_paddles, right_control};

verus! {

/// The screens of the game.
#[derive(PartialEq, Eq, Structural, Clone, Copy, Debug)]
pub enum Screen {
    Loading,
    MainMenu,
    Gameplay { num_players: u8 },
    Pause,
}

/// What the current screen asks of the stack of screens: nothing, remove
/// itself, put a screen on top of itself, swap itself for a screen, replace
/// every screen by one, or end the game.
#[derive(PartialEq, Eq, Structural, Clone, Copy, Debug)]
pub enum Trans {
    Stay,
    Pop,
    Push(Screen),
    Switch(Screen),
    Replace(Screen),
    Quit,
}

/// How far the loading of the game's assets has come.
#[derive(PartialEq, Eq, Structural, Clone, Copy, Debug)]
pub enum LoadProgress {
    Loading,
    Complete,
    Failed,
}

/// The buttons of the main menu, each as found among the loaded interface
/// elements (`None` where the interface has no such button).
#[derive(PartialEq, Eq, Structural, Clone, Copy, Debug)]
pub struct MenuButtons {
    pub zero_players: Option<EntityKey>,
    pub one_player: Option<EntityKey>,
    pub two_players: Option<EntityKey>,
    pub settings: Option<EntityKey>,
}

/// The transition that starts a game with `num_players` people, dropping the
/// menu.
pub open spec fn start_game(num_players: u8) -> Trans {
    Trans::Replace(Screen::Gameplay { num_players })
}

/// The loading screen waits for the assets, then shows the main menu; it ends
/// the game when loading failed.
pub open spec fn loading_next(progress: LoadProgress) -> Trans {
    match progress {
        LoadProgress::Loading => Trans::Stay,
        LoadProgress::Complete => Trans::Switch(Screen::MainMenu),
        LoadProgress::Failed => Trans::Quit,
    }
}

/// The main menu starts a game without players on return, and a game with
/// as many players as the clicked button says. The buttons are tried in the
/// order zero, one, two.
pub open spec fn menu_next(buttons: MenuButtons, input: GameInput) -> Trans {
    match input {
        GameInput::Window(keys) => if keys.enter {
            start_game(0)
        } else {
            Trans::Stay
        },
        GameInput::Ui(ui) => if !ui.click {
            Trans::Stay
        } else if buttons.zero_players == Some(ui.target) {
            start_game(0)
        } else if buttons.one_player == Some(ui.target) {
            start_game(1)
        } else if buttons.two_players == Some(ui.target) {
            start_game(2)
        } else {
            Trans::Stay
        },
        GameInput::Score(_) => Trans::Stay,
    }
}

/// True when the input is a press of the escape key.
pub open spec fn escape_pressed(input: GameInput) -> bool {
    match input {
        GameInput::Window(keys) => keys.escape,
        _ => false,
    }
}

/// Escape during a game puts the pause screen on top of it.
pub open spec fn gameplay_next(input: GameInput) -> Trans {
    if escape_pressed(input) {
        Trans::Push(Screen::Pause)
    } else {
        Trans::Stay
    }
}

/// Escape on the pause screen removes it, uncovering the game.
pub open spec fn pause_next(input: GameInput) -> Trans {
    if escape_pressed(input) {
        Trans::Pop
    } else {
        Trans::Stay
    }
}

/// What the loading screen does on an update, given the loading progress.
pub fn loading_update(progress: LoadProgress) -> (trans: Trans)
    ensures
        trans == loading_next(progress),
{
    match progress {
        LoadProgress::Complete => Trans::Switch(Screen::MainMenu),
        LoadProgress::Failed => Trans::Quit,
        LoadProgress::Loading => Trans::Stay,
    }
}

fn is_button(button: &Option<EntityKey>, target: EntityKey) -> (r: bool)
    ensures
        r == (*button == Some(target)),
{
    match button {
        Some(key) => *key == target,
        None => false,
    }
}

impl MenuButtons {
    /// What the main menu does on an event.
    pub fn handle_event(&self, input: &GameInput) -> (trans: Trans)
        ensures
            trans == menu_next(*self, *input),
            forall|keys: KeysDown|
                *input == GameInput::Window(keys) && !keys.enter ==> trans == Trans::Stay,
            forall|keys: KeysDown|
                *input == GameInput::Window(keys) && keys.enter ==> trans == Trans::Replace(
                    Screen::Gameplay { num_players: 0 },
                ),
            forall|ui: UiInput| *input == GameInput::Ui(ui) && !ui.click ==> trans == Trans::Stay,
            trans == Trans::Stay || trans == Trans::Replace(Screen::Gameplay { num_players: 0 })
                || trans == Trans::Replace(Screen::Gameplay { num_players: 1 }) || trans
                == Trans::Replace(Screen::Gameplay { num_players: 2 }),
    {
        match input {
            GameInput::Window(keys) => {
                if keys.enter {
                    Trans::Replace(Screen::Gameplay { num_players: 0 })
                } else {
                    Trans::Stay
                }
            },
            GameInput::Ui(ui) => {
                if !ui.click {
                    Trans::Stay
                } else if is_button(&self.zero_players, ui.target) {
                    Trans::Replace(Screen::Gameplay { num_players: 0 })
                } else if is_button(&self.one_player, ui.target) {
                    Trans::Replace(Screen::Gameplay { num_players: 1 })
                } else if is_button(&self.two_players, ui.target) {
                    Trans::Replace(Screen::Gameplay { num_players: 2 })
                } else {
                    Trans::Stay
                }
            },
            GameInput::Score(_) => Trans::Stay,
        }
    }
}

/// What a running game does on an event.
pub fn gameplay_handle_event(input: &GameInput) -> (trans: Trans)
    ensures
        trans == gameplay_next(*input),
        trans == Trans::Stay || trans == Trans::Push(Screen::Pause),
        trans == Trans::Push(Screen::Pause) <==> exists|keys: KeysDown|
            *input == GameInput::Window(keys) && keys.escape,
{
    match input {
        GameInput::Window(keys) => {
            if keys.escape {
                Trans::Push(Screen::Pause)
            } else {
                Trans::Stay
            }
        },
        _ => Trans::Stay,
    }
}

/// What the pause screen does on an event.
pub fn pause_handle_event(input: &GameInput) -> (trans: Trans)
    ensures
        trans == pause_next(*input),
        trans == Trans::Stay || trans == Trans::Pop,
        trans == Trans::Pop <==> exists|keys: KeysDown|
            *input == GameInput::Window(keys) && keys.escape,
{
    match input {
        GameInput::Window(keys) => {
            if keys.escape {
                Trans::Pop
            } else {
                Trans::Stay
            }
        },
        _ => Trans::Stay,
    }
}

/// Escape pauses a running game, and escape on the pause screen takes away
/// exactly the screen that the first escape put on top.
pub proof fn lemma_escape_pauses_and_resumes(keys: KeysDown)
    requires
        keys.escape,
    ensures
        gameplay_next(GameInput::Window(keys)) == Trans::Push(Screen::Pause),
        pause_next(GameInput::Window(keys)) == Trans::Pop,
{
}

/// The main menu either stays or starts a game, and then with at most two
/// players.
pub proof fn lemma_menu_starts_only_games(buttons: MenuButtons, input: GameInput)
    ensures
        menu_next(buttons, input) == Trans::Stay || exists|n: u8|
            n <= 2 && menu_next(buttons, input) == #[trigger] start_game(n),
{
    let t = menu_next(buttons, input);
    if t == start_game(0) {
        assert(start_game(0u8) == t);
    } else if t == start_game(1) {
        assert(start_game(1u8) == t);
    } else if t == start_game(2) {
        assert(start_game(2u8) == t);
    }
}

/// A game started from the main menu gives every chosen player a paddle of
/// their own.
pub proof fn lemma_menu_choice_is_player_paddles(
    buttons: MenuButtons,
    input: GameInput,
    num_players: u8,
)
    requires
        menu_next(buttons, input) == start_game(num_players),
    ensures
        num_players <= 2,
        player_paddles((left_control(num_players as int), right_control(num_players as int)))
            == num_players,
{
}

/// A scored point changes no screen.
pub proof fn lemma_score_keeps_screen(buttons: MenuButtons, input: GameInput)
    requires
        input is Score,
    ensures
        menu_next(buttons, input) == Trans::Stay,
        gameplay_next(input) == Trans::Stay,
        pause_next(input) == Trans::Stay,
{
}

/// Clicks, whatever they hit, never pause or resume a game: only the escape
/// key does.
pub proof fn lemma_only_escape_pauses(ui: UiInput)
    ensures
        gameplay_next(GameInput::Ui(ui)) == Trans::Stay,
        pause_next(GameInput::Ui(ui)) == Trans::Stay,
{
}

/// A running game reacts to window events only: it is paused exactly when
/// the escape key is pressed, and whatever else the event holds (the return
/// key among it) changes nothing.
pub proof fn lemma_game_pauses_exactly_on_escape(escape: bool, enter: bool, other_enter: bool)
    ensures
        gameplay_next(GameInput::Window(KeysDown { escape, enter })) == Trans::Push(Screen::Pause)
            <==> escape,
        !escape ==> gameplay_next(GameInput::Window(KeysDown { escape, enter })) == Trans::Stay,
        gameplay_next(GameInput::Window(KeysDown { escape, enter })) == gameplay_next(
            GameInput::Window(KeysDown { escape, enter: other_enter }),
        ),
{
}

/// The pause screen goes away exactly when the escape key is pressed; any
/// other window event, the return key among them, keeps it.
pub proof fn lemma_pause_ends_exactly_on_escape(escape: bool, enter: bool, other_enter: bool)
    ensures
        pause_next(GameInput::Window(KeysDown { escape, enter })) == Trans::Pop <==> escape,
        !escape ==> pause_next(GameInput::Window(KeysDown { escape, enter })) == Trans::Stay,
        pause_next(GameInput::Window(KeysDown { escape, enter })) == pause_next(
            GameInput::Window(KeysDown { escape, enter: other_enter }),
        ),
{
}

/// On the main menu a window event starts a game exactly when the return key
/// is pressed, and then one without players; the escape key plays no part.
pub proof fn lemma_menu_starts_on_return_only(
    buttons: MenuButtons,
    escape: bool,
    enter: bool,
    other_escape: bool,
)
    ensures
        menu_next(buttons, GameInput::Window(KeysDown { escape, enter })) != Trans::Stay <==> enter,
        !enter ==> menu_next(buttons, GameInput::Window(KeysDown { escape, enter }))
            == Trans::Stay,
        enter ==> menu_next(buttons, GameInput::Window(KeysDown { escape, enter }))
            == Trans::Replace(Screen::Gameplay { num_players: 0 }),
        menu_next(buttons, GameInput::Window(KeysDown { escape, enter })) == menu_next(
            buttons,
            GameInput::Window(KeysDown { escape: other_escape, enter }),
        ),
{
}

/// On the main menu a user-interface event that is not a click, whatever
/// element it concerns, changes nothing; a click changes the screen only
/// when it hits one of the three player buttons.
pub proof fn lemma_menu_needs_a_click_on_a_button(buttons: MenuButtons, ui: UiInput)
    ensures
        !ui.click ==> menu_next(buttons, GameInput::Ui(ui)) == Trans::Stay,
        menu_next(buttons, GameInput::Ui(ui)) != Trans::Stay ==> ui.click && (buttons.zero_players
            == Some(ui.target) || buttons.one_player == Some(ui.target) || buttons.two_players
            == Some(ui.target)),
        menu_next(buttons, GameInput::Ui(ui)) == Trans::Stay || menu_next(
            buttons,
            GameInput::Ui(ui),
        ) == menu_next(buttons, GameInput::Ui(UiInput { click: true, target: ui.target })),
{
}

} // verus!
