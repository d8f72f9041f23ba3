use std::collections::VecDeque;

use titanium_os::games::snake::{Direction, SnakeGame};
use titanium_os::input::Key;

fn cells(g: &SnakeGame) -> Vec<(u16, u16)> {
    g.snake.iter().copied().collect()
}

fn game(snake: &[(u16, u16)], direction: Direction, food: (u16, u16), width: u16, height: u16) -> SnakeGame {
    SnakeGame {
        snake: snake.iter().copied().collect::<VecDeque<_>>(),
        direction,
        food,
        score: 0,
        is_game_over: false,
        width,
        height,
    }
}

#[test]
fn new_game_starts_as_described() {
    let g = SnakeGame::new();
    assert_eq!(cells(&g), vec![(10, 5), (9, 5), (8, 5)]);
    assert_eq!(g.direction, Direction::Right);
    assert_eq!(g.food, (15, 4));
    assert_eq!(g.score, 0);
    assert!(!g.is_game_over);
    assert_eq!((g.width, g.height), (30, 10));
}

#[test]
fn update_moves_head_and_drops_tail() {
    let mut g = SnakeGame::new();
    g.update();
    assert_eq!(cells(&g), vec![(11, 5), (10, 5), (9, 5)]);
    assert_eq!(g.score, 0);
    assert_eq!(g.food, (15, 4));
}

#[test]
fn update_wraps_at_every_edge() {
    let mut g = game(&[(0, 0)], Direction::Up, (5, 5), 4, 3);
    g.update();
    assert_eq!(cells(&g), vec![(0, 2)]);
    let mut g = game(&[(0, 2)], Direction::Down, (5, 5), 4, 3);
    g.update();
    assert_eq!(cells(&g), vec![(0, 0)]);
    let mut g = game(&[(0, 1)], Direction::Left, (5, 5), 4, 3);
    g.update();
    assert_eq!(cells(&g), vec![(3, 1)]);
    let mut g = game(&[(3, 1)], Direction::Right, (5, 5), 4, 3);
    g.update();
    assert_eq!(cells(&g), vec![(0, 1)]);
}

#[test]
fn eating_grows_and_scores() {
    let mut g = SnakeGame::new();
    g.handle_input(Key::Char('w'));
    g.update();
    g.handle_input(Key::Char('d'));
    for _ in 0..4 {
        g.update();
    }
    assert_eq!(cells(&g), vec![(14, 4), (13, 4), (12, 4)]);
    g.update();
    assert_eq!(g.score, 10);
    assert_eq!(cells(&g), vec![(15, 4), (14, 4), (13, 4), (12, 4)]);
    assert!(g.food.0 < 30 && g.food.1 < 10);
    assert!(!g.is_game_over);
}

#[test]
fn running_into_itself_ends_the_game() {
    let mut g = game(&[(1, 1), (2, 1), (2, 2), (1, 2), (0, 2)], Direction::Down, (9, 9), 10, 10);
    let before = cells(&g);
    g.update();
    assert!(g.is_game_over);
    assert_eq!(cells(&g), before);
    g.update();
    assert!(g.is_game_over);
    assert_eq!(cells(&g), before);
}

#[test]
fn moving_into_the_tail_cell_ends_the_game() {
    let mut g = game(&[(1, 1), (2, 1), (2, 2), (1, 2)], Direction::Down, (9, 9), 10, 10);
    g.update();
    assert!(g.is_game_over);
}

#[test]
fn keys_turn_but_never_reverse() {
    let mut g = SnakeGame::new();
    g.handle_input(Key::Char('a'));
    assert_eq!(g.direction, Direction::Right);
    g.handle_input(Key::Char('S'));
    assert_eq!(g.direction, Direction::Down);
    g.handle_input(Key::Char('w'));
    assert_eq!(g.direction, Direction::Down);
    g.handle_input(Key::Char('A'));
    assert_eq!(g.direction, Direction::Left);
    g.handle_input(Key::Char('d'));
    assert_eq!(g.direction, Direction::Left);
    g.handle_input(Key::Char('W'));
    assert_eq!(g.direction, Direction::Up);
    g.handle_input(Key::Char('s'));
    assert_eq!(g.direction, Direction::Up);
    g.handle_input(Key::Char('x'));
    g.handle_input(Key::Enter);
    assert_eq!(g.direction, Direction::Up);
}

#[test]
fn r_restarts_after_game_over_only() {
    let mut g = SnakeGame::new();
    g.handle_input(Key::Char('r'));
    assert_eq!(cells(&g), vec![(10, 5), (9, 5), (8, 5)]);
    g.update();
    g.is_game_over = true;
    g.score = 40;
    g.handle_input(Key::Char('w'));
    assert_eq!(g.direction, Direction::Right);
    assert!(g.is_game_over);
    g.handle_input(Key::Char('R'));
    assert!(!g.is_game_over);
    assert_eq!(g.score, 0);
    assert_eq!(cells(&g), vec![(10, 5), (9, 5), (8, 5)]);
}

#[test]
fn place_food_follows_the_clock_reading() {
    let mut g = SnakeGame::new();
    g.place_food(1_000_000_007);
    assert_eq!(g.food, ((1_000_000_007u128 % 30) as u16, ((1_000_000_007u128 >> 2) % 10) as u16));
    assert_eq!(g.food, (17, 1));
    g.place_food(0);
    assert_eq!(g.food, (0, 0));
    g.place_food(43);
    assert_eq!(g.food, (13, 0));
}

#[test]
fn screen_text_draws_board() {
    let g = game(&[(1, 0), (0, 0)], Direction::Right, (2, 1), 3, 2);
    assert_eq!(g.screen_text(), " Score: 0\n\n  ■■ \n    🍎\n");
}

#[test]
fn screen_text_draws_snake_over_food() {
    let mut g = game(&[(0, 0)], Direction::Right, (0, 0), 2, 1);
    g.score = 120;
    assert_eq!(g.screen_text(), " Score: 120\n\n  ■ \n");
}

#[test]
fn screen_text_after_game_over() {
    let mut g = SnakeGame::new();
    g.is_game_over = true;
    g.score = 30;
    assert_eq!(g.screen_text(), "\n   GAME OVER!\n   Score: 30\n   Press 'R' to Restart");
}
