use snake_core::draw::{Color, DrawCmd};
use snake_core::food::Food;
use snake_core::food_map::FoodMap;
use snake_core::geometry::{Direction, Point};
use snake_core::snake::Snake;

fn cmd(px: u16, py: u16, size: u8, color: Color) -> DrawCmd {
    DrawCmd { px, py, size, color }
}

#[test]
fn new_snake_is_one_cell_heading_as_given() {
    let s = Snake::new(Point::new(2, 2), Direction::Right);
    assert_eq!(s.length(), 1);
    assert_eq!(s.get_head(), Point::new(2, 2));
    assert_eq!(s.get_direction(), Direction::Right);
}

#[test]
fn set_direction_is_unchecked_at_this_layer() {
    let mut s = Snake::new(Point::new(2, 2), Direction::Right);
    s.set_direction(Direction::Left);
    assert_eq!(s.get_direction(), Direction::Left);
}

#[test]
fn update_moves_head_without_growing_on_empty_cell() {
    let mut s = Snake::new(Point::new(2, 2), Direction::Right);
    let mut food = FoodMap::new();
    s.update(&mut food, 5, 5);
    assert_eq!(s.get_head(), Point::new(3, 2));
    assert_eq!(s.length(), 1);
    // The vacated tail is the cell that was the last body element:
    // the erase command renders it first, in the background colour.
    let cmds = s.render(1);
    assert_eq!(cmds[0], cmd(2, 2, 1, Color::Black));
    assert_eq!(cmds[1], cmd(3, 2, 1, Color::Green));
    assert_eq!(cmds.len(), 2);
}

#[test]
fn update_grows_by_one_and_consumes_food() {
    let mut s = Snake::new(Point::new(2, 2), Direction::Right);
    let mut food = FoodMap::new();
    s.update(&mut food, 5, 5);
    // Prior vacated tail, to check it is left alone on a growth tick.
    food.insert(Point::new(4, 2), Food::new()).unwrap();

    s.update(&mut food, 5, 5);
    assert_eq!(s.length(), 2);
    assert_eq!(s.get_head(), Point::new(4, 2));
    assert!(!food.contains(Point::new(4, 2)));
    assert_eq!(food.len(), 0);
    // old_tail still (2, 2), untouched by the growth tick.
    let cmds = s.render(1);
    assert_eq!(cmds[0], cmd(2, 2, 1, Color::Black));
    assert_eq!(cmds[1], cmd(4, 2, 1, Color::Green));
    assert_eq!(cmds[2], cmd(3, 2, 1, Color::Green));
    assert_eq!(cmds.len(), 3);
}

#[test]
fn update_without_food_records_new_vacated_tail() {
    let mut s = Snake::new(Point::new(2, 2), Direction::Right);
    let mut food = FoodMap::new();
    s.update(&mut food, 5, 5);
    food.insert(Point::new(4, 2), Food::new()).unwrap();
    s.update(&mut food, 5, 5);

    // Body is now [(4,2), (3,2)]; moving right wraps to (0,2) and
    // vacates (3,2).
    s.update(&mut food, 5, 5);
    assert_eq!(s.length(), 2);
    assert_eq!(s.get_head(), Point::new(0, 2));
    let cmds = s.render(1);
    assert_eq!(cmds[0], cmd(3, 2, 1, Color::Black));
    assert_eq!(cmds[1], cmd(0, 2, 1, Color::Green));
    assert_eq!(cmds[2], cmd(4, 2, 1, Color::Green));
    assert_eq!(cmds.len(), 3);
}

#[test]
fn update_wraps_head_across_every_edge() {
    let mut food = FoodMap::new();

    let mut s = Snake::new(Point::new(0, 3), Direction::Left);
    s.update(&mut food, 8, 8);
    assert_eq!(s.get_head(), Point::new(7, 3));

    let mut s = Snake::new(Point::new(3, 0), Direction::Up);
    s.update(&mut food, 8, 8);
    assert_eq!(s.get_head(), Point::new(3, 7));

    let mut s = Snake::new(Point::new(7, 3), Direction::Right);
    s.update(&mut food, 8, 8);
    assert_eq!(s.get_head(), Point::new(0, 3));

    let mut s = Snake::new(Point::new(3, 7), Direction::Down);
    s.update(&mut food, 8, 8);
    assert_eq!(s.get_head(), Point::new(3, 0));
}

#[test]
fn render_before_first_move_has_no_erase_command() {
    let s = Snake::new(Point::new(1, 1), Direction::Right);
    let cmds = s.render(10);
    assert_eq!(cmds, vec![cmd(10, 10, 10, Color::Green)]);
}
