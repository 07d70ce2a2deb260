use snake_game::game::{Game, Key, Rect, MOVING_PERIOD, RESTART_TIME};
use snake_game::snake::Direction;

fn grown_to_five() -> Game {
    let mut g = Game::new(20, 20);
    assert!(g.place_food(5, 2));
    g.request_direction(Direction::Right);
    assert!(g.place_food(6, 2));
    g.request_direction(Direction::Right);
    assert_eq!(g.snake().draw(), vec![(6, 2), (5, 2), (4, 2), (3, 2), (2, 2)]);
    g
}

#[test]
fn new_game_starts_playing_with_three_cells() {
    for (w, h) in [(1, 1), (6, 4), (20, 20), (i32::MAX, i32::MAX)] {
        let g = Game::new(w, h);
        assert_eq!(g.snake().head_position(), (4, 2));
        assert_eq!(g.snake().len(), 3);
        assert_eq!(g.snake().draw(), vec![(4, 2), (3, 2), (2, 2)]);
        assert_eq!(g.snake().head_direction(), Direction::Right);
        assert_eq!(g.food(), None);
        assert_eq!(g.waiting_time(), 0);
        assert!(!g.is_game_over());
        assert_eq!(g.width(), w);
        assert_eq!(g.height(), h);
    }
}

#[test]
fn periods_are_a_fifth_of_a_second_and_a_second() {
    assert_eq!(MOVING_PERIOD, 200_000);
    assert_eq!(RESTART_TIME, 1_000_000);
}

#[test]
fn reversal_request_is_dropped() {
    let mut g = Game::new(20, 20);
    g.update(7);
    let food = g.food();
    g.request_direction(Direction::Left);
    assert_eq!(g.snake().head_direction(), Direction::Right);
    assert_eq!(g.snake().draw(), vec![(4, 2), (3, 2), (2, 2)]);
    assert_eq!(g.waiting_time(), 7);
    assert_eq!(g.food(), food);
    assert!(!g.is_game_over());
    g.key_pressed(Key::Left);
    assert_eq!(g.snake().draw(), vec![(4, 2), (3, 2), (2, 2)]);
    assert_eq!(g.waiting_time(), 7);
}

#[test]
fn request_moves_at_once_and_resets_the_clock() {
    let mut g = Game::new(20, 20);
    assert!(g.place_food(10, 10));
    g.update(150_000);
    assert_eq!(g.waiting_time(), 150_000);
    g.request_direction(Direction::Down);
    assert_eq!(g.snake().draw(), vec![(4, 3), (4, 2), (3, 2)]);
    assert_eq!(g.snake().head_direction(), Direction::Down);
    assert_eq!(g.waiting_time(), 0);
    g.request_direction(Direction::Down);
    assert_eq!(g.snake().draw(), vec![(4, 4), (4, 3), (4, 2)]);
}

#[test]
fn other_key_steps_along_the_heading() {
    let mut g = Game::new(20, 20);
    g.key_pressed(Key::Other);
    assert_eq!(g.snake().draw(), vec![(5, 2), (4, 2), (3, 2)]);
    g.key_pressed(Key::Up);
    assert_eq!(g.snake().draw(), vec![(5, 1), (5, 2), (4, 2)]);
    g.key_pressed(Key::Other);
    assert!(g.is_game_over());
    assert_eq!(g.snake().draw(), vec![(5, 1), (5, 2), (4, 2)]);
}

#[test]
fn arrow_keys_ask_for_their_direction() {
    let mut g = Game::new(20, 20);
    g.key_pressed(Key::Down);
    assert_eq!(g.snake().head_position(), (4, 3));
    g.key_pressed(Key::Right);
    assert_eq!(g.snake().head_position(), (5, 3));
    g.key_pressed(Key::Up);
    assert_eq!(g.snake().head_position(), (5, 2));
    g.key_pressed(Key::Left);
    assert_eq!(g.snake().head_position(), (4, 2));
    assert!(!g.is_game_over());
}

#[test]
fn eating_grows_by_one_and_clears_food() {
    let mut g = Game::new(20, 20);
    assert!(g.place_food(5, 2));
    assert_eq!(g.food(), Some((5, 2)));
    g.request_direction(Direction::Right);
    assert_eq!(g.snake().len(), 4);
    assert_eq!(g.snake().draw(), vec![(5, 2), (4, 2), (3, 2), (2, 2)]);
    assert_eq!(g.food(), None);
    assert!(!g.is_game_over());
}

#[test]
fn eating_on_a_timed_step() {
    let mut g = Game::new(20, 20);
    assert!(g.place_food(5, 2));
    g.update(MOVING_PERIOD + 1);
    assert_eq!(g.snake().draw(), vec![(5, 2), (4, 2), (3, 2), (2, 2)]);
    assert_eq!(g.food(), None);
    assert_eq!(g.waiting_time(), 0);
}

#[test]
fn step_beside_food_leaves_it() {
    let mut g = Game::new(20, 20);
    assert!(g.place_food(5, 3));
    g.request_direction(Direction::Right);
    assert_eq!(g.snake().len(), 3);
    assert_eq!(g.food(), Some((5, 3)));
}

#[test]
fn place_food_rejects_border_and_snake() {
    let mut g = Game::new(10, 8);
    assert!(!g.place_food(0, 3));
    assert!(!g.place_food(9, 3));
    assert!(!g.place_food(3, 0));
    assert!(!g.place_food(3, 7));
    assert!(!g.place_food(4, 2));
    assert!(!g.place_food(2, 2));
    assert!(!g.place_food(-1, -1));
    assert_eq!(g.food(), None);
    assert!(g.place_food(8, 6));
    assert_eq!(g.food(), Some((8, 6)));
    assert!(!g.place_food(0, 0));
    assert_eq!(g.food(), Some((8, 6)));
    assert!(g.place_food(1, 1));
    assert_eq!(g.food(), Some((1, 1)));
}

#[test]
fn right_wall_ends_the_round_and_moves_nothing() {
    let mut g = Game::new(6, 4);
    g.update(10);
    g.request_direction(Direction::Right);
    assert!(g.is_game_over());
    assert_eq!(g.snake().draw(), vec![(4, 2), (3, 2), (2, 2)]);
    assert_eq!(g.snake().head_direction(), Direction::Right);
    assert_eq!(g.waiting_time(), 0);
}

#[test]
fn top_wall_ends_the_round() {
    let mut g = Game::new(20, 20);
    g.request_direction(Direction::Up);
    assert!(!g.is_game_over());
    assert_eq!(g.snake().head_position(), (4, 1));
    g.request_direction(Direction::Up);
    assert!(g.is_game_over());
    assert_eq!(g.snake().draw(), vec![(4, 1), (4, 2), (3, 2)]);
}

#[test]
fn bottom_and_left_walls_end_the_round() {
    let mut g = Game::new(20, 5);
    g.request_direction(Direction::Down);
    assert_eq!(g.snake().head_position(), (4, 3));
    g.request_direction(Direction::Down);
    assert!(g.is_game_over());
    assert_eq!(g.snake().head_position(), (4, 3));

    let mut h = Game::new(20, 20);
    h.request_direction(Direction::Down);
    for x in [3, 2, 1] {
        h.request_direction(Direction::Left);
        assert!(!h.is_game_over());
        assert_eq!(h.snake().head_position(), (x, 3));
    }
    h.request_direction(Direction::Left);
    assert!(h.is_game_over());
    assert_eq!(h.snake().draw(), vec![(1, 3), (2, 3), (3, 3)]);
}

#[test]
fn timed_step_into_wall_ends_the_round() {
    let mut g = Game::new(7, 5);
    g.update(MOVING_PERIOD + 1);
    assert_eq!(g.snake().head_position(), (5, 2));
    assert!(!g.is_game_over());
    g.update(MOVING_PERIOD + 1);
    assert!(g.is_game_over());
    assert_eq!(g.snake().head_position(), (5, 2));
    assert_eq!(g.waiting_time(), 0);
}

#[test]
fn self_collision_ends_the_round_and_moves_nothing() {
    let mut g = grown_to_five();
    g.request_direction(Direction::Down);
    g.request_direction(Direction::Left);
    assert_eq!(g.snake().draw(), vec![(5, 3), (6, 3), (6, 2), (5, 2), (4, 2)]);
    assert!(!g.is_game_over());
    g.request_direction(Direction::Up);
    assert!(g.is_game_over());
    assert_eq!(g.snake().draw(), vec![(5, 3), (6, 3), (6, 2), (5, 2), (4, 2)]);
    assert_eq!(g.snake().head_direction(), Direction::Left);
}

#[test]
fn stepping_into_the_tail_cell_counts_as_collision() {
    let mut g = Game::new(20, 20);
    assert!(g.place_food(5, 2));
    g.request_direction(Direction::Right);
    g.request_direction(Direction::Down);
    g.request_direction(Direction::Left);
    assert_eq!(g.snake().draw(), vec![(4, 3), (5, 3), (5, 2), (4, 2)]);
    g.request_direction(Direction::Up);
    assert!(g.is_game_over());
    assert_eq!(g.snake().draw(), vec![(4, 3), (5, 3), (5, 2), (4, 2)]);
}

#[test]
fn lost_round_ignores_requests() {
    let mut g = Game::new(6, 4);
    g.request_direction(Direction::Right);
    assert!(g.is_game_over());
    g.request_direction(Direction::Down);
    g.key_pressed(Key::Up);
    g.key_pressed(Key::Other);
    assert!(g.is_game_over());
    assert_eq!(g.snake().draw(), vec![(4, 2), (3, 2), (2, 2)]);
    assert_eq!(g.snake().head_direction(), Direction::Right);
}

#[test]
fn lost_round_counts_down_without_moving_or_feeding() {
    let mut g = Game::new(6, 4);
    g.request_direction(Direction::Right);
    assert!(g.is_game_over());
    g.update(600_000);
    assert!(g.is_game_over());
    assert_eq!(g.waiting_time(), 600_000);
    assert_eq!(g.food(), None);
    assert_eq!(g.snake().draw(), vec![(4, 2), (3, 2), (2, 2)]);
    g.update(400_000);
    assert!(g.is_game_over());
    assert_eq!(g.waiting_time(), RESTART_TIME);
    g.update(1);
    assert!(!g.is_game_over());
    assert_eq!(g.waiting_time(), 0);
}

#[test]
fn restart_gives_a_fresh_game() {
    let mut g = grown_to_five();
    assert!(g.place_food(10, 10));
    g.request_direction(Direction::Up);
    g.request_direction(Direction::Up);
    assert!(g.is_game_over());
    g.update(RESTART_TIME + 1);
    let fresh = Game::new(20, 20);
    assert_eq!(g.snake().draw(), fresh.snake().draw());
    assert_eq!(g.snake().head_direction(), fresh.snake().head_direction());
    assert_eq!(g.snake().last_removed(), fresh.snake().last_removed());
    assert_eq!(g.food(), fresh.food());
    assert_eq!(g.is_game_over(), fresh.is_game_over());
    assert_eq!(g.waiting_time(), fresh.waiting_time());
    assert_eq!(g.width(), 20);
    assert_eq!(g.height(), 20);
}

#[test]
fn restart_called_directly_gives_a_fresh_game() {
    let mut g = grown_to_five();
    g.update(5);
    g.restart();
    assert_eq!(g.snake().draw(), vec![(4, 2), (3, 2), (2, 2)]);
    assert_eq!(g.snake().head_direction(), Direction::Right);
    assert_eq!(g.food(), None);
    assert_eq!(g.waiting_time(), 0);
    assert!(!g.is_game_over());
}

#[test]
fn timed_step_waits_for_more_than_the_period() {
    let mut g = Game::new(20, 20);
    g.update(MOVING_PERIOD);
    assert_eq!(g.snake().head_position(), (4, 2));
    assert_eq!(g.waiting_time(), 200_000);
    g.update(1);
    assert_eq!(g.snake().head_position(), (5, 2));
    assert_eq!(g.waiting_time(), 0);
    g.update(100_000);
    g.update(100_000);
    assert_eq!(g.snake().head_position(), (5, 2));
    g.update(100_000);
    assert_eq!(g.snake().head_position(), (6, 2));
}

#[test]
fn clock_stops_at_its_largest_value() {
    let mut g = Game::new(6, 4);
    g.request_direction(Direction::Right);
    assert!(g.is_game_over());
    g.update(1_000_000);
    g.update(0);
    assert_eq!(g.waiting_time(), 1_000_000);
    let mut h = Game::new(20, 20);
    h.update(150_000);
    h.update(u64::MAX);
    assert_eq!(h.waiting_time(), 0);
    assert_eq!(h.snake().head_position(), (5, 2));
    let mut k = Game::new(6, 4);
    k.request_direction(Direction::Right);
    k.update(999_999);
    k.update(u64::MAX);
    assert!(!k.is_game_over());
}

#[test]
fn update_spawns_food_on_a_free_cell() {
    for round in 0..200 {
        let mut g = Game::new(8, 6);
        g.update(round);
        let (x, y) = g.food().unwrap();
        assert!(1 <= x && x <= 6, "x = {}", x);
        assert!(1 <= y && y <= 4, "y = {}", y);
        assert!(!g.snake().overlap_tail(x, y));
    }
}

#[test]
fn update_keeps_food_that_is_there() {
    let mut g = Game::new(20, 20);
    assert!(g.place_food(15, 15));
    for _ in 0..50 {
        g.update(1);
        assert_eq!(g.food(), Some((15, 15)));
    }
}

#[test]
fn update_on_a_board_without_free_cells_leaves_food_absent() {
    let mut g = Game::new(2, 2);
    g.update(1);
    assert_eq!(g.food(), None);
    let mut h = Game::new(1, 1);
    h.update(1);
    assert_eq!(h.food(), None);
}

#[test]
fn draw_lists_snake_food_and_border() {
    let mut g = Game::new(12, 9);
    assert!(g.place_food(7, 5));
    let d = g.draw();
    assert_eq!(d.snake_cells, vec![(4, 2), (3, 2), (2, 2)]);
    assert_eq!(d.food, Some((7, 5)));
    assert_eq!(
        d.border,
        [
            Rect { x: 0, y: 0, width: 12, height: 1 },
            Rect { x: 0, y: 8, width: 12, height: 1 },
            Rect { x: 0, y: 0, width: 1, height: 9 },
            Rect { x: 11, y: 0, width: 1, height: 9 },
        ]
    );
    assert_eq!(d.overlay, None);
}

#[test]
fn draw_adds_overlay_once_the_round_is_lost() {
    let mut g = Game::new(6, 4);
    g.request_direction(Direction::Right);
    let d = g.draw();
    assert_eq!(d.overlay, Some(Rect { x: 0, y: 0, width: 6, height: 4 }));
    assert_eq!(d.food, None);
    assert_eq!(d.snake_cells, vec![(4, 2), (3, 2), (2, 2)]);
}
