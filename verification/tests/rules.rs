use pong::event::{EntityKey, GameInput, KeysDown, UiInput};
use pong::paddle::{paddle_controls, Control, Side};
use pong::scoreboard::ScoreBoard;
use pong::screens::{
    gameplay_handle_event, loading_update, pause_handle_event, LoadProgress, MenuButtons, Screen,
    Trans,
};
use pong::systems::{
    AIBigBrainSystem, BounceSystem, Heading, PaddleContact, PaddleSystem,
};

fn contact(side: Side, touching: bool) -> PaddleContact {
    PaddleContact { side, touching }
}

fn key(index: u32) -> EntityKey {
    EntityKey { index, generation: 1 }
}

fn buttons() -> MenuButtons {
    MenuButtons {
        zero_players: Some(key(10)),
        one_player: Some(key(11)),
        two_players: Some(key(12)),
        settings: Some(key(13)),
    }
}

fn click(index: u32) -> GameInput {
    GameInput::Ui(UiInput { click: true, target: key(index) })
}

fn escape() -> GameInput {
    GameInput::Window(KeysDown { escape: true, enter: false })
}

fn enter() -> GameInput {
    GameInput::Window(KeysDown { escape: false, enter: true })
}

#[test]
fn scoreboard_starts_at_zero() {
    let board = ScoreBoard::new();
    assert_eq!(board.score_left, 0);
    assert_eq!(board.score_right, 0);
}

#[test]
fn no_players_means_two_computer_paddles() {
    assert_eq!(paddle_controls(0), (Control::Computer, Control::Computer));
}

#[test]
fn one_player_takes_the_left_paddle() {
    assert_eq!(paddle_controls(1), (Control::Player, Control::Computer));
}

#[test]
fn two_players_take_both_paddles() {
    assert_eq!(paddle_controls(2), (Control::Player, Control::Player));
}

#[test]
fn more_players_than_paddles_still_two_player_paddles() {
    assert_eq!(paddle_controls(7), (Control::Player, Control::Player));
    assert_eq!(paddle_controls(255), (Control::Player, Control::Player));
}

#[test]
fn player_paddles_never_go_back_to_the_computer() {
    let mut prev = paddle_controls(0);
    for n in 1..=255u8 {
        let cur = paddle_controls(n);
        if prev.0 == Control::Player {
            assert_eq!(cur.0, Control::Player);
        }
        if prev.1 == Control::Player {
            assert_eq!(cur.1, Control::Player);
        }
        prev = cur;
    }
}

#[test]
fn input_axes_per_side() {
    assert_eq!(PaddleSystem.input_axis(Side::Left), "left_paddle");
    assert_eq!(PaddleSystem.input_axis(Side::Right), "right_paddle");
}

#[test]
fn computer_follows_the_last_ball() {
    let ai = AIBigBrainSystem;
    assert_eq!(ai.steer(&vec![]), None);
    assert_eq!(ai.steer(&vec![true]), Some(Heading::Negative));
    assert_eq!(ai.steer(&vec![false]), Some(Heading::Positive));
    assert_eq!(ai.steer(&vec![true, false]), Some(Heading::Positive));
    assert_eq!(ai.steer(&vec![false, false, true]), Some(Heading::Negative));
}

#[test]
fn ball_turns_at_the_bottom_wall_only_when_falling() {
    let b = BounceSystem;
    let out = b.bounce(Heading::Positive, Heading::Negative, true, false, &vec![]);
    assert_eq!(out.vy, Heading::Positive);
    assert!(out.wall_bounce);
    let out = b.bounce(Heading::Positive, Heading::Positive, true, false, &vec![]);
    assert_eq!(out.vy, Heading::Positive);
    assert!(!out.wall_bounce);
}

#[test]
fn ball_turns_at_the_top_wall_only_when_rising() {
    let b = BounceSystem;
    let out = b.bounce(Heading::Negative, Heading::Positive, false, true, &vec![]);
    assert_eq!(out.vy, Heading::Negative);
    assert!(out.wall_bounce);
    let out = b.bounce(Heading::Negative, Heading::Negative, false, true, &vec![]);
    assert_eq!(out.vy, Heading::Negative);
    assert!(!out.wall_bounce);
    assert_eq!(out.vx, Heading::Negative);
}

#[test]
fn wall_bounce_settles_on_the_next_frame() {
    let b = BounceSystem;
    let first = b.bounce(Heading::Still, Heading::Negative, true, false, &vec![]);
    let second = b.bounce(Heading::Still, first.vy, true, false, &vec![]);
    assert!(first.wall_bounce);
    assert!(!second.wall_bounce);
    assert_eq!(second.vy, Heading::Positive);
}

#[test]
fn ball_inside_both_walls_turns_on_every_pass() {
    let b = BounceSystem;
    let first = b.bounce(Heading::Still, Heading::Negative, true, true, &vec![]);
    let second = b.bounce(Heading::Still, first.vy, true, true, &vec![]);
    assert!(first.wall_bounce);
    assert!(second.wall_bounce);
    assert_eq!(second.vy, Heading::Negative);
}

#[test]
fn left_paddle_sends_the_ball_right() {
    let b = BounceSystem;
    let paddles = vec![contact(Side::Left, true), contact(Side::Right, false)];
    let out = b.bounce(Heading::Negative, Heading::Still, false, false, &paddles);
    assert_eq!(out.vx, Heading::Positive);
    assert_eq!(out.paddle_bounces, 1);
    let again = b.bounce(out.vx, Heading::Still, false, false, &paddles);
    assert_eq!(again.vx, Heading::Positive);
    assert_eq!(again.paddle_bounces, 0);
}

#[test]
fn right_paddle_sends_the_ball_left() {
    let b = BounceSystem;
    let paddles = vec![contact(Side::Left, false), contact(Side::Right, true)];
    let out = b.bounce(Heading::Positive, Heading::Positive, false, false, &paddles);
    assert_eq!(out.vx, Heading::Negative);
    assert_eq!(out.vy, Heading::Positive);
    assert_eq!(out.paddle_bounces, 1);
    assert!(!out.wall_bounce);
}

#[test]
fn paddle_ignores_a_ball_moving_away() {
    let b = BounceSystem;
    let paddles = vec![contact(Side::Left, true)];
    let out = b.bounce(Heading::Positive, Heading::Still, false, false, &paddles);
    assert_eq!(out.vx, Heading::Positive);
    assert_eq!(out.paddle_bounces, 0);
    let out = b.bounce(Heading::Still, Heading::Still, false, false, &paddles);
    assert_eq!(out.vx, Heading::Still);
    assert_eq!(out.paddle_bounces, 0);
}

#[test]
fn untouched_paddles_change_nothing() {
    let b = BounceSystem;
    let paddles = vec![contact(Side::Left, false), contact(Side::Right, false)];
    let out = b.bounce(Heading::Negative, Heading::Negative, false, false, &paddles);
    assert_eq!(out.vx, Heading::Negative);
    assert_eq!(out.vy, Heading::Negative);
    assert_eq!(out.paddle_bounces, 0);
    assert!(!out.wall_bounce);
}

#[test]
fn paddles_are_visited_in_order() {
    let b = BounceSystem;
    let paddles = vec![contact(Side::Left, true), contact(Side::Right, true)];
    let out = b.bounce(Heading::Negative, Heading::Still, false, false, &paddles);
    assert_eq!(out.vx, Heading::Negative);
    assert_eq!(out.paddle_bounces, 2);
    let paddles = vec![contact(Side::Right, true), contact(Side::Left, true)];
    let out = b.bounce(Heading::Negative, Heading::Still, false, false, &paddles);
    assert_eq!(out.vx, Heading::Positive);
    assert_eq!(out.paddle_bounces, 1);
}

#[test]
fn two_touched_paddles_on_one_side_turn_the_ball_once() {
    let b = BounceSystem;
    let paddles = vec![contact(Side::Right, true), contact(Side::Right, true)];
    let out = b.bounce(Heading::Positive, Heading::Still, false, false, &paddles);
    assert_eq!(out.vx, Heading::Negative);
    assert_eq!(out.paddle_bounces, 1);
}

#[test]
fn loading_screen_transitions() {
    assert_eq!(loading_update(LoadProgress::Loading), Trans::Stay);
    assert_eq!(loading_update(LoadProgress::Complete), Trans::Switch(Screen::MainMenu));
    assert_eq!(loading_update(LoadProgress::Failed), Trans::Quit);
}

#[test]
fn menu_buttons_start_games() {
    let b = buttons();
    assert_eq!(b.handle_event(&click(10)), Trans::Replace(Screen::Gameplay { num_players: 0 }));
    assert_eq!(b.handle_event(&click(11)), Trans::Replace(Screen::Gameplay { num_players: 1 }));
    assert_eq!(b.handle_event(&click(12)), Trans::Replace(Screen::Gameplay { num_players: 2 }));
}

#[test]
fn menu_settings_and_other_clicks_stay() {
    let b = buttons();
    assert_eq!(b.handle_event(&click(13)), Trans::Stay);
    assert_eq!(b.handle_event(&click(99)), Trans::Stay);
    let other_generation = GameInput::Ui(UiInput {
        click: true,
        target: EntityKey { index: 11, generation: 2 },
    });
    assert_eq!(b.handle_event(&other_generation), Trans::Stay);
}

#[test]
fn menu_ignores_ui_events_that_are_not_clicks() {
    let b = buttons();
    let hover = GameInput::Ui(UiInput { click: false, target: key(12) });
    assert_eq!(b.handle_event(&hover), Trans::Stay);
}

#[test]
fn menu_enter_starts_a_computer_game() {
    let b = buttons();
    assert_eq!(b.handle_event(&enter()), Trans::Replace(Screen::Gameplay { num_players: 0 }));
    assert_eq!(b.handle_event(&escape()), Trans::Stay);
}

#[test]
fn menu_without_buttons_only_reacts_to_enter() {
    let b = MenuButtons { zero_players: None, one_player: None, two_players: None, settings: None };
    assert_eq!(b.handle_event(&click(10)), Trans::Stay);
    assert_eq!(b.handle_event(&enter()), Trans::Replace(Screen::Gameplay { num_players: 0 }));
}

#[test]
fn menu_button_order_when_buttons_coincide() {
    let b = MenuButtons {
        zero_players: Some(key(5)),
        one_player: Some(key(5)),
        two_players: Some(key(5)),
        settings: None,
    };
    assert_eq!(b.handle_event(&click(5)), Trans::Replace(Screen::Gameplay { num_players: 0 }));
}

#[test]
fn menu_choice_gives_each_player_a_paddle() {
    let b = buttons();
    for (target, players) in [(10u32, 0u8), (11, 1), (12, 2)] {
        match b.handle_event(&click(target)) {
            Trans::Replace(Screen::Gameplay { num_players }) => {
                assert_eq!(num_players, players);
                let (l, r) = paddle_controls(num_players);
                let count = (l == Control::Player) as u8 + (r == Control::Player) as u8;
                assert_eq!(count, players);
            }
            other => panic!("unexpected {:?}", other),
        }
    }
}

#[test]
fn escape_pauses_and_escape_resumes() {
    assert_eq!(gameplay_handle_event(&escape()), Trans::Push(Screen::Pause));
    assert_eq!(pause_handle_event(&escape()), Trans::Pop);
}

#[test]
fn other_inputs_neither_pause_nor_resume() {
    assert_eq!(gameplay_handle_event(&enter()), Trans::Stay);
    assert_eq!(pause_handle_event(&enter()), Trans::Stay);
    assert_eq!(gameplay_handle_event(&click(10)), Trans::Stay);
    assert_eq!(pause_handle_event(&click(10)), Trans::Stay);
}
