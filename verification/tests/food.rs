use snake_core::draw::{Color, DrawCmd};
use snake_core::food::Food;
use snake_core::food_map::{CapacityError, FoodMap};
use snake_core::geometry::Point;

#[test]
fn fresh_food_is_white_then_cycles_red_white() {
    let mut f = Food::new();
    assert_eq!(f.current_color(), Color::White);
    f.update();
    assert_eq!(f.current_color(), Color::Red);
    f.update();
    assert_eq!(f.current_color(), Color::White);
}

#[test]
fn food_render_uses_current_palette_entry() {
    let mut f = Food::new();
    assert_eq!(
        f.render(Point::new(4, 2), 10),
        DrawCmd { px: 40, py: 20, size: 10, color: Color::White }
    );
    f.update();
    assert_eq!(
        f.render(Point::new(4, 2), 10),
        DrawCmd { px: 40, py: 20, size: 10, color: Color::Red }
    );
}

#[test]
fn food_map_insert_remove_and_len() {
    let mut m = FoodMap::new();
    assert_eq!(m.len(), 0);
    assert!(!m.contains(Point::new(1, 2)));

    assert_eq!(m.insert(Point::new(1, 2), Food::new()), Ok(None));
    assert_eq!(m.len(), 1);
    assert!(m.contains(Point::new(1, 2)));

    let removed = m.remove(Point::new(1, 2));
    assert!(removed.is_some());
    assert_eq!(m.len(), 0);
    assert!(!m.contains(Point::new(1, 2)));
    assert!(m.remove(Point::new(1, 2)).is_none());
}

#[test]
fn food_map_replaces_value_at_existing_key() {
    let mut m = FoodMap::new();
    let mut advanced = Food::new();
    advanced.update();

    assert_eq!(m.insert(Point::new(3, 3), Food::new()), Ok(None));
    let prev = m.insert(Point::new(3, 3), advanced).unwrap();
    assert_eq!(prev, Some(Food::new()));
    assert_eq!(m.len(), 1);
}

#[test]
fn food_map_refuses_ninth_distinct_cell() {
    let mut m = FoodMap::new();
    for x in 0..8u8 {
        assert_eq!(m.insert(Point::new(x, 0), Food::new()), Ok(None));
    }
    assert_eq!(m.len(), 8);
    assert_eq!(m.insert(Point::new(8, 0), Food::new()), Err(CapacityError));
    assert_eq!(m.len(), 8);
    // A full table still lets an existing cell's value be replaced.
    assert_eq!(m.insert(Point::new(3, 0), Food::new()), Ok(Some(Food::new())));
}

#[test]
fn food_map_entries_lists_every_cell_once() {
    let mut m = FoodMap::new();
    m.insert(Point::new(1, 1), Food::new()).unwrap();
    m.insert(Point::new(2, 2), Food::new()).unwrap();
    let mut keys: Vec<(u8, u8)> = m.entries().into_iter().map(|(k, _)| k).collect();
    keys.sort();
    assert_eq!(keys, vec![(1, 1), (2, 2)]);
}
