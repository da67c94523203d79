use snake_ctrl::game::{App, Key, Update};
use snake_ctrl::record::Record;
use snake_ctrl::timer::Timer;
use snake_ctrl::{Direction, Point, SnakeCtrl, SnakeCtrlErr, SnakeCtrlOptions};

fn new_game(opts: SnakeCtrlOptions, best: Option<u64>) -> App {
    App {
        snake_ctrl: SnakeCtrl::new(&opts).unwrap(),
        score: 0,
        timer: Timer::new(150, 0),
        record: Record::init(best),
        is_game_over: false,
    }
}

fn quiet_game() -> SnakeCtrlOptions {
    SnakeCtrlOptions::default().auto_gen_food(false)
}

#[test]
fn arrow_keys_ask_for_their_direction() {
    let cases = [
        (Key::Up, Direction::Top, Point(3, 4)),
        (Key::Down, Direction::Bottom, Point(3, 2)),
        (Key::Right, Direction::Right, Point(4, 3)),
    ];
    for (key, direction, head) in cases {
        let mut app = new_game(quiet_game(), None);
        assert_eq!(app.handle_key_press(key, 0), Ok(()));
        assert_eq!(app.update(), Update::Moved);
        assert_eq!(app.snake_ctrl.current_direction(), direction);
        assert_eq!(app.snake_ctrl.get_state().snake[0], head);
    }
}

#[test]
fn the_key_straight_back_is_ignored_or_an_error_as_the_session_says() {
    let mut app = new_game(quiet_game(), None);
    assert_eq!(app.handle_key_press(Key::Left, 0), Ok(()));
    assert_eq!(app.update(), Update::Moved);
    assert_eq!(app.snake_ctrl.current_direction(), Direction::Right);

    let mut strict = new_game(quiet_game().fail_on_revert(true), None);
    assert_eq!(strict.handle_key_press(Key::Left, 0), Err(SnakeCtrlErr::SnakeAteItself));
    assert_eq!(strict.update(), Update::Moved);
    assert_eq!(strict.snake_ctrl.current_direction(), Direction::Right);
}

#[test]
fn space_pauses_and_resumes_a_running_game() {
    let mut app = new_game(quiet_game(), None);
    assert_eq!(app.handle_key_press(Key::Space, 0), Ok(()));
    assert!(!app.timer.is_ready(10_000_000_000));
    assert_eq!(app.handle_key_press(Key::Space, 0), Ok(()));
    assert!(app.timer.is_ready(10_000_000_000));
    assert!(!app.is_game_over);
    assert_eq!(app.snake_ctrl.get_state().snake[0], Point(3, 3));
}

#[test]
fn any_other_key_does_nothing() {
    let mut app = new_game(quiet_game(), Some(5));
    app.score = 2;
    assert_eq!(app.handle_key_press(Key::Other, 99), Ok(()));
    assert_eq!(app.score, 2);
    assert_eq!(app.record.score, 5);
    assert!(!app.is_game_over);
    assert_eq!(app.timer.get_speed(), 150);
    assert_eq!(app.update(), Update::Moved);
    assert_eq!(app.snake_ctrl.current_direction(), Direction::Right);
}

#[test]
fn an_update_that_eats_counts_the_score() {
    let mut app = new_game(SnakeCtrlOptions::default().dimension_x(6).dimension_y(1), Some(3));
    let mut eaten = 0;
    // On a single row with open walls the snake runs round and eats whatever
    // lies in its way.
    for _ in 0..4 {
        match app.update() {
            Update::Ate => eaten += 1,
            Update::Moved => {}
            other => panic!("{:?}", other),
        }
        assert_eq!(app.score, eaten);
    }
    assert!(eaten >= 1);
    assert_eq!(app.snake_ctrl.get_state().snake.len() as u64, 3 + eaten);
    assert_eq!(app.record.score, 3);
    assert_eq!(app.timer.get_speed(), 150);
}

#[test]
fn an_update_into_the_wall_ends_the_game_and_stores_a_new_best_score() {
    let mut app = new_game(quiet_game().walking_through_the_walls(false), Some(1));
    app.score = 2;
    app.record.set_current_score(2);
    assert_eq!(app.update(), Update::Moved);
    assert_eq!(app.update(), Update::Moved);
    assert_eq!(app.update(), Update::Moved);
    assert_eq!(
        app.update(),
        Update::GameOver { cause: SnakeCtrlErr::SnakeHitTheWall, store: Some(2) }
    );
    assert!(app.is_game_over);
    assert_eq!(app.record.score, 2);
    assert_eq!(app.score, 2);
    assert!(!app.timer.is_ready(10_000_000_000));
}

#[test]
fn a_game_that_ends_below_the_best_score_stores_nothing() {
    // On a single row with open walls a step upwards lands on the snake itself.
    let mut app = new_game(quiet_game().dimension_x(6).dimension_y(1), Some(7));
    assert_eq!(app.handle_key_press(Key::Up, 0), Ok(()));
    assert_eq!(
        app.update(),
        Update::GameOver { cause: SnakeCtrlErr::SnakeAteItself, store: None }
    );
    assert!(app.is_game_over);
    assert_eq!(app.record.score, 7);
}

#[test]
fn a_tick_on_a_snake_too_short_to_move_is_a_fault() {
    let mut app = new_game(quiet_game().walking_through_the_walls(false), None);
    let mut last = Update::Moved;
    for _ in 0..6 {
        last = app.update();
    }
    // Three moves to the wall, two deaths that cost a tail each, then nothing
    // is left to move.
    assert_eq!(last, Update::Fault(SnakeCtrlErr::SnakeIsZero));
    assert_eq!(app.snake_ctrl.get_full_state().snake.len(), 1);
}

#[test]
fn space_after_the_end_starts_the_game_again() {
    let mut app = new_game(quiet_game().walking_through_the_walls(false), Some(0));
    app.score = 4;
    app.record.set_current_score(4);
    app.handle_key_press(Key::Up, 0).unwrap();
    while app.update() == Update::Moved {}
    assert!(app.is_game_over);
    assert_eq!(app.record.score, 4);

    assert_eq!(app.handle_key_press(Key::Space, 5_000_000_000), Ok(()));
    assert!(!app.is_game_over);
    assert_eq!(app.score, 0);
    assert_eq!(app.record.score, 4);
    assert_eq!(app.timer.get_speed(), 200);
    assert_eq!(app.timer.count_of_decreasing(), 0);
    assert!(!app.timer.is_ready(5_199_000_000));
    assert!(app.timer.is_ready(5_200_000_000));
    assert_eq!(app.snake_ctrl.current_direction(), Direction::Right);
    assert_eq!(
        app.snake_ctrl.get_state().snake,
        vec![Point(3, 3), Point(2, 3), Point(1, 3)]
    );
    assert_eq!(app.update(), Update::Moved);
    assert_eq!(app.snake_ctrl.get_state().snake[0], Point(4, 3));
}

#[test]
fn restart_game_works_in_the_middle_of_a_game_too() {
    let mut app = new_game(quiet_game(), Some(9));
    app.score = 3;
    app.handle_key_press(Key::Up, 0).unwrap();
    assert_eq!(app.update(), Update::Moved);
    app.timer.pause();
    app.restart_game(77);
    assert_eq!(app.score, 0);
    assert_eq!(app.record.score, 9);
    assert!(!app.is_game_over);
    assert_eq!(app.timer.get_speed(), 200);
    assert!(app.timer.is_ready(77 + 200_000_000));
    assert_eq!(
        app.snake_ctrl.get_state().snake,
        vec![Point(3, 3), Point(2, 3), Point(1, 3)]
    );
}
