use snake::status::{GameState, GameStatus, FALL_BEHIND_LOSS_AMOUNT, FOOD_WIN_AMOUNT};

fn state(status: GameStatus, eaten: u32, backlog: u32) -> GameState {
    GameState { status, eaten, backlog }
}

#[test]
fn thresholds_are_fifty_and_fifteen() {
    assert_eq!(FOOD_WIN_AMOUNT, 50);
    assert_eq!(FALL_BEHIND_LOSS_AMOUNT, 15);
}

#[test]
fn a_new_state_is_in_progress_with_zero_counters() {
    assert_eq!(GameState::new(), state(GameStatus::InProgress, 0, 0));
}

#[test]
fn only_won_and_lost_are_over() {
    assert!(!GameStatus::InProgress.is_over());
    assert!(GameStatus::Won.is_over());
    assert!(GameStatus::Lost.is_over());
}

#[test]
fn end_messages() {
    assert_eq!(GameStatus::Won.end_message(), "You won!");
    assert_eq!(GameStatus::Lost.end_message(), "You lost!");
}

#[test]
fn below_both_thresholds_nothing_happens() {
    let mut s = state(GameStatus::InProgress, 49, 14);
    assert_eq!(s.update_game_status(50, 15), None);
    assert_eq!(s, state(GameStatus::InProgress, 49, 14));
}

#[test]
fn reaching_the_win_threshold_wins() {
    let mut s = state(GameStatus::InProgress, 50, 0);
    assert_eq!(s.update_game_status(50, 15), Some(GameStatus::Won));
    assert_eq!(s, state(GameStatus::Won, 50, 0));
}

#[test]
fn reaching_the_loss_threshold_loses() {
    let mut s = state(GameStatus::InProgress, 3, 15);
    assert_eq!(s.update_game_status(50, 15), Some(GameStatus::Lost));
    assert_eq!(s, state(GameStatus::Lost, 3, 15));
}

#[test]
fn a_win_takes_precedence_over_a_loss() {
    let mut s = state(GameStatus::InProgress, 50, 15);
    assert_eq!(s.update_game_status(50, 15), Some(GameStatus::Won));
    assert_eq!(s.status, GameStatus::Won);
}

#[test]
fn the_terminal_event_is_given_once() {
    let mut s = state(GameStatus::InProgress, 0, 15);
    assert_eq!(s.update_game_status(50, 15), Some(GameStatus::Lost));
    for _ in 0..5 {
        assert_eq!(s.update_game_status(50, 15), None);
        assert_eq!(s, state(GameStatus::Lost, 0, 15));
    }
}

#[test]
fn a_lost_session_does_not_turn_into_a_won_one() {
    let mut s = state(GameStatus::Lost, 50, 0);
    assert_eq!(s.update_game_status(50, 15), None);
    assert_eq!(s.status, GameStatus::Lost);
}

#[test]
fn a_won_session_does_not_turn_into_a_lost_one() {
    let mut s = state(GameStatus::Won, 0, 15);
    assert_eq!(s.update_game_status(50, 15), None);
    assert_eq!(s.status, GameStatus::Won);
}

#[test]
fn a_spawn_raises_the_backlog_by_one() {
    let mut s = state(GameStatus::InProgress, 4, 2);
    s.handle_render_event();
    assert_eq!(s, state(GameStatus::InProgress, 4, 3));
}

#[test]
fn a_meal_raises_eaten_and_lowers_the_backlog() {
    let mut s = state(GameStatus::InProgress, 4, 2);
    s.inc_and_dec();
    assert_eq!(s, state(GameStatus::InProgress, 5, 1));
}
