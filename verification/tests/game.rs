use snake_core::draw::{Color, DrawCmd};
use snake_core::food::Food;
use snake_core::game::{BoardConfig, Game};
use snake_core::geometry::{Direction, Point};

fn board(width: u8, height: u8, pixel_width: u8) -> BoardConfig {
    BoardConfig { width, height, pixel_width }
}

#[test]
fn new_game_centres_snake_heading_right_with_no_food() {
    let g = Game::new(board(24, 24, 10));
    assert_eq!(g.snake.get_head(), Point::new(12, 12));
    assert_eq!(g.snake.get_direction(), Direction::Right);
    assert_eq!(g.snake.length(), 1);
    assert_eq!(g.food.len(), 0);
}

#[test]
fn reversal_guard_ignores_opposite_input_only() {
    let mut g = Game::new(board(24, 24, 10));
    assert_eq!(g.snake.get_direction(), Direction::Right);

    g.fast_update(Some(Direction::Left));
    assert_eq!(g.snake.get_direction(), Direction::Right);

    g.fast_update(Some(Direction::Up));
    assert_eq!(g.snake.get_direction(), Direction::Up);

    g.fast_update(Some(Direction::Down));
    assert_eq!(g.snake.get_direction(), Direction::Up);

    g.fast_update(None);
    assert_eq!(g.snake.get_direction(), Direction::Up);

    g.fast_update(Some(Direction::Left));
    assert_eq!(g.snake.get_direction(), Direction::Left);
}

#[test]
fn spawn_guard_withholds_food_near_the_top_while_short() {
    let mut g = Game::new(board(24, 24, 10));
    g.fast_update(Some(Direction::Up));

    // Feed the snake twice on its way up; remove the food the game
    // respawns at (12, 5) so the board goes back to zero live food.
    g.food.insert(Point::new(12, 11), Food::new()).unwrap();
    g.slow_update();
    assert_eq!(g.snake.length(), 2);
    assert!(g.food.remove(Point::new(12, 5)).is_some());

    g.food.insert(Point::new(12, 10), Food::new()).unwrap();
    g.slow_update();
    assert_eq!(g.snake.length(), 3);
    assert!(g.food.remove(Point::new(12, 5)).is_some());

    // Walk up to row 5; each tick respawns food at (12, 5) because the
    // head is still at row >= 5, so keep clearing it.
    for _ in 0..5 {
        g.slow_update();
        assert!(g.food.remove(Point::new(12, 5)).is_some());
    }
    assert_eq!(g.snake.get_head(), Point::new(12, 5));
    assert_eq!(g.snake.length(), 3);
    assert_eq!(g.food.len(), 0);

    // Head row 4, then 3, then 2: shorter than 5 cells and above row
    // 5, so the guard withholds spawning.
    for row in [4u8, 3, 2] {
        g.slow_update();
        assert_eq!(g.snake.get_head(), Point::new(12, row));
        assert_eq!(g.food.len(), 0);
    }
    assert_eq!(g.snake.length(), 3);

    // Grow to 4: still guarded.
    g.food.insert(Point::new(12, 1), Food::new()).unwrap();
    g.slow_update();
    assert_eq!(g.snake.length(), 4);
    assert_eq!(g.food.len(), 0);

    // Grow to 5: the guard no longer applies, so the same tick
    // restocks exactly one food item at the candidate cell.
    g.food.insert(Point::new(12, 0), Food::new()).unwrap();
    g.slow_update();
    assert_eq!(g.snake.length(), 5);
    assert_eq!(g.food.len(), 1);
    assert!(g.food.contains(Point::new(12, 5)));
}

#[test]
fn end_to_end_five_by_five_board() {
    let mut g = Game::new(board(5, 5, 1));
    assert_eq!(g.snake.get_head(), Point::new(2, 2));
    assert_eq!(g.snake.get_direction(), Direction::Right);
    g.food.insert(Point::new(4, 2), Food::new()).unwrap();

    g.slow_update();
    assert_eq!(g.snake.get_head(), Point::new(3, 2));
    assert_eq!(g.snake.length(), 1);
    assert_eq!(g.food.len(), 1);

    g.slow_update();
    assert_eq!(g.snake.get_head(), Point::new(4, 2));
    assert_eq!(g.snake.length(), 2);
    assert_eq!(g.food.len(), 0);

    g.slow_update();
    assert_eq!(g.snake.get_head(), Point::new(0, 2));
    assert_eq!(g.snake.length(), 2);
    assert_eq!(g.food.len(), 0);
}

#[test]
fn render_draws_food_then_snake() {
    let mut g = Game::new(board(5, 5, 10));
    g.food.insert(Point::new(4, 2), Food::new()).unwrap();
    let cmds = g.render();
    assert_eq!(
        cmds,
        vec![
            DrawCmd { px: 40, py: 20, size: 10, color: Color::White },
            DrawCmd { px: 20, py: 20, size: 10, color: Color::Green },
        ]
    );
}

#[test]
fn slow_update_advances_food_colour_each_tick() {
    let mut g = Game::new(board(24, 24, 1));
    // Move below the guard region so the board keeps one food item.
    g.fast_update(Some(Direction::Down));
    g.slow_update();
    // Food spawned at (12, 5) this tick and was animated once: red.
    let cmds = g.render();
    assert_eq!(cmds[0], DrawCmd { px: 12, py: 5, size: 1, color: Color::Red });
    g.slow_update();
    let cmds = g.render();
    assert_eq!(cmds[0], DrawCmd { px: 12, py: 5, size: 1, color: Color::White });
}
