use snake_ctrl::{Direction, Point, SnakeCtrl, SnakeCtrlErr, SnakeCtrlOptions};

#[test]
fn tst() {
    let opts = SnakeCtrlOptions::default()
        .dimension_x(15)
        .dimension_y(10)
        .initial_snake_size(7);
    let mut ctrl = SnakeCtrl::new(&opts).unwrap();
    println!("{}\n", ctrl.get_matrix().to_string());
    ctrl.direction_to(Direction::Left).unwrap();
    let _ = ctrl.next_tick();
    println!("{}\n", ctrl.get_matrix().to_string());
    ctrl.direction_to(Direction::Left).unwrap();
    let _ = ctrl.next_tick();
    println!("{}\n", ctrl.get_matrix().to_string());
    ctrl.direction_to(Direction::Top).unwrap();
    let _ = ctrl.next_tick();
    println!("{}\n", ctrl.get_matrix().to_string());
    let _ = ctrl.next_tick();
    println!("{}\n", ctrl.get_matrix().to_string());
    ctrl.direction_to(Direction::Right).unwrap();

    let _ = ctrl.next_tick();
    println!("{}\n", ctrl.get_matrix().to_string());
    ctrl.direction_to(Direction::Left).unwrap();
    let _ = ctrl.next_tick();
    println!("{}\n", ctrl.get_matrix().to_string());
}

fn quiet_session(dim_x: u16, dim_y: u16, size: u16) -> SnakeCtrlOptions {
    SnakeCtrlOptions::default()
        .dimension_x(dim_x)
        .dimension_y(dim_y)
        .initial_snake_size(size)
        .auto_gen_food(false)
}

#[test]
fn a_new_session_starts_with_the_snake_left_of_the_center_heading_right() {
    let ctrl = SnakeCtrl::new(&quiet_session(15, 10, 7)).unwrap();
    let state = ctrl.get_state();
    assert_eq!(
        state.snake,
        vec![
            Point(7, 5),
            Point(6, 5),
            Point(5, 5),
            Point(4, 5),
            Point(3, 5),
            Point(2, 5),
            Point(1, 5),
        ]
    );
    assert!(state.food.is_empty());
    assert_eq!(state.head_direction, Direction::Right);
    assert_eq!(state.tail_direction, Direction::Left);
    assert_eq!(ctrl.current_direction(), Direction::Right);
}

#[test]
fn a_new_session_fails_when_the_snake_does_not_fit_left_of_the_center() {
    assert_eq!(
        SnakeCtrl::new(&quiet_session(7, 7, 4)).err(),
        Some(SnakeCtrlErr::InitSnakeSizeIsBig)
    );
    assert_eq!(
        SnakeCtrl::new(&quiet_session(5, 7, 3)).err(),
        Some(SnakeCtrlErr::InitSnakeSizeIsBig)
    );
    assert_eq!(
        SnakeCtrl::new(&quiet_session(0, 7, 3)).err(),
        Some(SnakeCtrlErr::InitSnakeSizeIsBig)
    );
    assert!(SnakeCtrl::new(&quiet_session(6, 7, 3)).is_ok());
    assert!(SnakeCtrl::new(&quiet_session(8, 1, 4)).is_ok());
}

#[test]
fn a_new_session_on_a_grid_without_rows_fails_with_the_missing_row() {
    assert_eq!(
        SnakeCtrl::new(&quiet_session(7, 0, 3)).err(),
        Some(SnakeCtrlErr::RowIndexOutOfBounds(0))
    );
    assert_eq!(
        SnakeCtrl::new(&SnakeCtrlOptions::default().dimension_y(0)).err(),
        Some(SnakeCtrlErr::RowIndexOutOfBounds(0))
    );
    // A snake that does not fit is reported first.
    assert_eq!(
        SnakeCtrl::new(&quiet_session(5, 0, 3)).err(),
        Some(SnakeCtrlErr::InitSnakeSizeIsBig)
    );
    assert!(SnakeCtrl::new(&quiet_session(7, 1, 3)).is_ok());
}

#[test]
fn a_new_session_with_default_options_has_one_food_point_off_the_snake() {
    for _ in 0..50 {
        let ctrl = SnakeCtrl::new(&SnakeCtrlOptions::default()).unwrap();
        let state = ctrl.get_state();
        assert_eq!(state.snake, vec![Point(3, 3), Point(2, 3), Point(1, 3)]);
        assert_eq!(state.food.len(), 1);
        let f = state.food[0];
        assert!(f.0 < 7 && f.1 < 7);
        assert!(!state.snake.contains(&f));
    }
}

#[test]
fn a_session_on_the_largest_grid_starts_and_runs() {
    let opts = SnakeCtrlOptions::default()
        .dimension_x(65535)
        .dimension_y(65535)
        .initial_snake_size(100);
    let mut ctrl = SnakeCtrl::new(&opts).unwrap();
    let state = ctrl.get_state();
    assert_eq!(state.snake.len(), 100);
    assert_eq!(state.snake[0], Point(32767, 32767));
    assert_eq!(state.snake[99], Point(32668, 32767));
    assert_eq!(state.food.len(), 1);
    assert!(ctrl.next_tick().is_ok());
    assert_eq!(ctrl.get_state().snake[0], Point(32768, 32767));
}

#[test]
fn a_tick_moves_the_snake_one_cell_in_the_buffered_direction() {
    let mut ctrl = SnakeCtrl::new(&quiet_session(7, 7, 3)).unwrap();
    assert_eq!(ctrl.next_tick(), Ok(false));
    assert_eq!(ctrl.get_state().snake, vec![Point(4, 3), Point(3, 3), Point(2, 3)]);

    ctrl.direction_to(Direction::Top).unwrap();
    assert_eq!(ctrl.current_direction(), Direction::Right);
    assert_eq!(ctrl.next_tick(), Ok(false));
    assert_eq!(ctrl.current_direction(), Direction::Top);
    assert_eq!(ctrl.get_state().snake, vec![Point(4, 4), Point(4, 3), Point(3, 3)]);

    ctrl.direction_to(Direction::Left).unwrap();
    assert_eq!(ctrl.next_tick(), Ok(false));
    assert_eq!(ctrl.get_state().snake, vec![Point(3, 4), Point(4, 4), Point(4, 3)]);

    ctrl.direction_to(Direction::Bottom).unwrap();
    assert_eq!(ctrl.next_tick(), Ok(false));
    assert_eq!(ctrl.get_state().snake, vec![Point(3, 3), Point(3, 4), Point(4, 4)]);
}

#[test]
fn the_last_direction_asked_for_before_a_tick_is_the_one_applied() {
    let mut ctrl = SnakeCtrl::new(&quiet_session(7, 7, 3)).unwrap();
    ctrl.direction_to(Direction::Top).unwrap();
    ctrl.direction_to(Direction::Bottom).unwrap();
    assert_eq!(ctrl.next_tick(), Ok(false));
    assert_eq!(ctrl.current_direction(), Direction::Bottom);
    assert_eq!(ctrl.get_state().snake[0], Point(3, 2));
}

#[test]
fn a_reversal_is_ignored_when_reverting_is_not_an_error() {
    let mut ctrl = SnakeCtrl::new(&quiet_session(7, 7, 3)).unwrap();
    assert_eq!(ctrl.direction_to(Direction::Left), Ok(()));
    assert_eq!(ctrl.next_tick(), Ok(false));
    assert_eq!(ctrl.current_direction(), Direction::Right);
    assert_eq!(ctrl.get_state().snake[0], Point(4, 3));
}

#[test]
fn a_reversal_does_not_replace_a_direction_buffered_before_it() {
    let mut ctrl = SnakeCtrl::new(&quiet_session(7, 7, 3)).unwrap();
    ctrl.direction_to(Direction::Top).unwrap();
    assert_eq!(ctrl.direction_to(Direction::Left), Ok(()));
    assert_eq!(ctrl.next_tick(), Ok(false));
    assert_eq!(ctrl.current_direction(), Direction::Top);
}

#[test]
fn a_reversal_is_an_error_when_reverting_is_forbidden() {
    let mut ctrl = SnakeCtrl::new(&quiet_session(7, 7, 3).fail_on_revert(true)).unwrap();
    assert_eq!(ctrl.direction_to(Direction::Left), Err(SnakeCtrlErr::SnakeAteItself));
    assert_eq!(ctrl.current_direction(), Direction::Right);
    assert_eq!(ctrl.get_state().snake, vec![Point(3, 3), Point(2, 3), Point(1, 3)]);
    assert_eq!(ctrl.next_tick(), Ok(false));
    assert_eq!(ctrl.current_direction(), Direction::Right);
    assert_eq!(ctrl.get_state().snake[0], Point(4, 3));

    ctrl.direction_to(Direction::Top).unwrap();
    assert_eq!(ctrl.direction_to(Direction::Left), Err(SnakeCtrlErr::SnakeAteItself));
    assert_eq!(ctrl.next_tick(), Ok(false));
    assert_eq!(ctrl.current_direction(), Direction::Top);
}

#[test]
fn a_reversal_is_judged_against_the_direction_of_the_last_tick() {
    let mut ctrl = SnakeCtrl::new(&quiet_session(7, 7, 3).fail_on_revert(true)).unwrap();
    ctrl.direction_to(Direction::Top).unwrap();
    // Still heading right: asking for bottom is no reversal yet.
    assert_eq!(ctrl.direction_to(Direction::Bottom), Ok(()));
    ctrl.direction_to(Direction::Top).unwrap();
    assert_eq!(ctrl.next_tick(), Ok(false));
    assert_eq!(ctrl.direction_to(Direction::Bottom), Err(SnakeCtrlErr::SnakeAteItself));
    assert_eq!(ctrl.direction_to(Direction::Left), Ok(()));
}

#[test]
fn with_solid_walls_the_snake_dies_at_the_edge_without_its_tail() {
    let mut ctrl = SnakeCtrl::new(&quiet_session(7, 7, 3).walking_through_the_walls(false)).unwrap();
    assert_eq!(ctrl.next_tick(), Ok(false));
    assert_eq!(ctrl.next_tick(), Ok(false));
    assert_eq!(ctrl.next_tick(), Ok(false));
    assert_eq!(ctrl.get_state().snake, vec![Point(6, 3), Point(5, 3), Point(4, 3)]);
    assert_eq!(ctrl.next_tick(), Err(SnakeCtrlErr::SnakeHitTheWall));
    assert_eq!(ctrl.get_state().snake, vec![Point(6, 3), Point(5, 3)]);
}

#[test]
fn with_open_walls_the_snake_comes_back_in_from_the_other_side() {
    let mut ctrl = SnakeCtrl::new(&quiet_session(7, 7, 3)).unwrap();
    for _ in 0..3 {
        assert_eq!(ctrl.next_tick(), Ok(false));
    }
    assert_eq!(ctrl.next_tick(), Ok(false));
    assert_eq!(ctrl.get_state().snake, vec![Point(0, 3), Point(6, 3), Point(5, 3)]);

    ctrl.direction_to(Direction::Bottom).unwrap();
    for _ in 0..3 {
        assert_eq!(ctrl.next_tick(), Ok(false));
    }
    assert_eq!(ctrl.get_state().snake[0], Point(0, 0));
    assert_eq!(ctrl.next_tick(), Ok(false));
    assert_eq!(ctrl.get_state().snake, vec![Point(0, 6), Point(0, 0), Point(0, 1)]);
}

#[test]
fn a_snake_that_runs_into_itself_dies_with_its_head_on_the_body() {
    let mut ctrl = SnakeCtrl::new(&quiet_session(15, 10, 7)).unwrap();
    ctrl.direction_to(Direction::Top).unwrap();
    assert_eq!(ctrl.next_tick(), Ok(false));
    ctrl.direction_to(Direction::Left).unwrap();
    assert_eq!(ctrl.next_tick(), Ok(false));
    ctrl.direction_to(Direction::Bottom).unwrap();
    assert_eq!(ctrl.next_tick(), Err(SnakeCtrlErr::SnakeAteItself));
    let state = ctrl.get_state();
    assert_eq!(
        state.snake,
        vec![
            Point(6, 5),
            Point(6, 6),
            Point(7, 6),
            Point(7, 5),
            Point(6, 5),
            Point(5, 5),
            Point(4, 5),
        ]
    );
    assert_eq!(ctrl.current_direction(), Direction::Bottom);
}

#[test]
fn restart_brings_back_the_initial_snake_and_direction() {
    let mut ctrl = SnakeCtrl::new(&quiet_session(9, 9, 4)).unwrap();
    let start = ctrl.get_state().snake;
    assert_eq!(start, vec![Point(4, 4), Point(3, 4), Point(2, 4), Point(1, 4)]);

    ctrl.direction_to(Direction::Top).unwrap();
    assert_eq!(ctrl.next_tick(), Ok(false));
    ctrl.direction_to(Direction::Left).unwrap();
    assert_eq!(ctrl.next_tick(), Ok(false));
    ctrl.direction_to(Direction::Bottom).unwrap();

    assert_eq!(ctrl.restart(), Ok(()));
    assert_eq!(ctrl.get_state().snake, start);
    assert_eq!(ctrl.current_direction(), Direction::Right);
    // The direction buffered before the restart is gone too.
    assert_eq!(ctrl.next_tick(), Ok(false));
    assert_eq!(ctrl.current_direction(), Direction::Right);
    assert_eq!(ctrl.get_state().snake[0], Point(5, 4));
}

#[test]
fn restart_after_death_gives_a_playable_session() {
    let mut ctrl = SnakeCtrl::new(&quiet_session(7, 7, 3).walking_through_the_walls(false)).unwrap();
    while ctrl.next_tick().is_ok() {}
    assert_eq!(ctrl.get_state().snake.len(), 2);
    assert_eq!(ctrl.restart(), Ok(()));
    assert_eq!(ctrl.get_state().snake, vec![Point(3, 3), Point(2, 3), Point(1, 3)]);
    assert_eq!(ctrl.next_tick(), Ok(false));
}

#[test]
fn restart_with_food_generation_leaves_exactly_one_food_point() {
    let mut ctrl = SnakeCtrl::new(&SnakeCtrlOptions::default()).unwrap();
    for _ in 0..20 {
        let _ = ctrl.next_tick();
    }
    assert_eq!(ctrl.restart(), Ok(()));
    let state = ctrl.get_state();
    assert_eq!(state.snake, vec![Point(3, 3), Point(2, 3), Point(1, 3)]);
    assert_eq!(state.food.len(), 1);
    assert!(!state.snake.contains(&state.food[0]));
}

#[test]
fn the_mirrored_state_counts_rows_from_the_other_edge() {
    let mut ctrl = SnakeCtrl::new(&quiet_session(15, 10, 3)).unwrap();
    ctrl.direction_to(Direction::Top).unwrap();
    assert_eq!(ctrl.next_tick(), Ok(false));
    let plain = ctrl.get_state();
    let mirrored = ctrl.get_state_reversed_y();
    assert_eq!(plain.snake, vec![Point(7, 6), Point(7, 5), Point(6, 5)]);
    assert_eq!(mirrored.snake, vec![Point(7, 4), Point(7, 5), Point(6, 5)]);
    assert_eq!(mirrored.head_direction, Direction::Top);
    assert_eq!(mirrored.tail_direction, plain.tail_direction);
    assert_eq!(plain.tail_direction, Direction::Left);
}

#[test]
fn the_matrix_of_a_session_shows_snake_and_food() {
    let ctrl = SnakeCtrl::new(&SnakeCtrlOptions::default()).unwrap();
    let state = ctrl.get_state();
    let m = ctrl.get_matrix();
    assert_eq!(m.rows.len(), 7);
    for (y, row) in m.rows.iter().enumerate() {
        assert_eq!(row.len(), 7);
        for (x, cell) in row.iter().enumerate() {
            let p = Point(x as u16, y as u16);
            let expected = if state.food.contains(&p) {
                7
            } else if state.snake.contains(&p) {
                1
            } else {
                0
            };
            assert_eq!(*cell, expected);
        }
    }
}

#[test]
fn the_matrix_of_a_quiet_session_as_text() {
    let ctrl = SnakeCtrl::new(&quiet_session(6, 3, 3)).unwrap();
    assert_eq!(ctrl.get_matrix().to_string(), "0 0 0 0 0 0\n0 1 1 1 0 0\n0 0 0 0 0 0");
}

#[test]
fn a_long_game_keeps_every_invariant() {
    let mut ctrl = SnakeCtrl::new(&SnakeCtrlOptions::default().dimension_x(9).dimension_y(8)).unwrap();
    let turns = [Direction::Top, Direction::Right, Direction::Bottom, Direction::Left];
    let mut length = 3;
    for step in 0..400usize {
        if step % 3 == 0 {
            let _ = ctrl.direction_to(turns[(step / 3) % 4]);
        }
        match ctrl.next_tick() {
            Ok(ate) => {
                if ate {
                    length += 1;
                }
                let state = ctrl.get_state();
                assert_eq!(state.snake.len(), length);
                for (i, p) in state.snake.iter().enumerate() {
                    assert!(p.0 < 9 && p.1 < 8);
                    assert!(!state.snake[i + 1..].contains(p));
                    assert!(!state.food.contains(p));
                }
                assert_eq!(state.food.len(), 1);
            }
            Err(e) => {
                assert_eq!(e, SnakeCtrlErr::SnakeAteItself);
                ctrl.restart().unwrap();
                length = 3;
            }
        }
    }
}
