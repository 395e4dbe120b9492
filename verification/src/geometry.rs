//! Value types for board geometry: directions, deltas, cell positions,
//! and movement with wraparound at the board edges.

use vstd::prelude::*;
use vstd::arithmetic::div_mod::lemma_fundamental_div_mod_converse;

verus! {

/// One of the four joystick directions.
#[derive(Debug, Clone, Copy, PartialEq, Eq, Structural)]
pub enum Direction {
    Up,
    Right,
    Down,
    Left,
}

/// A position on the board. `(0, 0)` is the top-left cell.
#[derive(Debug, Clone, Copy, PartialEq, Eq, Hash, Structural)]
pub struct Point {
    pub x: u8,
    pub y: u8,
}

impl Point {
    pub fn new(x: u8, y: u8) -> (r: Self)
        ensures
            r == (Point { x, y }),
    {
        Point { x, y }
    }
}

/// A delta for a `Point`.
#[derive(Debug, Clone, Copy, PartialEq, Eq, Structural)]
pub struct Vector {
    pub dx: i8,
    pub dy: i8,
}

impl Vector {
    pub fn new(dx: i8, dy: i8) -> (r: Self)
        ensures
            r == (Vector { dx, dy }),
    {
        Vector { dx, dy }
    }

    /// The vector pointing the other way.
    pub fn opposite(&self) -> (r: Self)
        requires
            i8::MIN < self.dx,
            i8::MIN < self.dy,
        ensures
            r.dx == -self.dx,
            r.dy == -self.dy,
    {
        Vector { dx: -self.dx, dy: -self.dy }
    }
}

/// The unit delta that one step in direction `d` applies to a position.
pub open spec fn direction_vector(d: Direction) -> Vector {
    match d {
        Direction::Up => Vector { dx: 0i8, dy: -1i8 },
        Direction::Down => Vector { dx: 0i8, dy: 1i8 },
        Direction::Left => Vector { dx: -1i8, dy: 0i8 },
        Direction::Right => Vector { dx: 1i8, dy: 0i8 },
    }
}

impl From<Direction> for Vector {
    fn from(d: Direction) -> (r: Vector) {
        match d {
            Direction::Up => Vector { dx: 0, dy: -1 },
            Direction::Down => Vector { dx: 0, dy: 1 },
            Direction::Left => Vector { dx: -1, dy: 0 },
            Direction::Right => Vector { dx: 1, dy: 0 },
        }
    }
}

impl vstd::std_specs::convert::FromSpecImpl<Direction> for Vector {
    open spec fn obeys_from_spec() -> bool {
        true
    }

    open spec fn from_spec(d: Direction) -> Vector {
        direction_vector(d)
    }
}

/// The cell reached from `p` by the unit delta `v` on a `width` by `height`
/// torus: coordinates are taken modulo the board size, so stepping off one
/// edge lands on the opposite edge.
pub open spec fn wrap_add(p: Point, v: Vector, width: u8, height: u8) -> Point {
    Point {
        x: ((p.x + v.dx) % (width as int)) as u8,
        y: ((p.y + v.dy) % (height as int)) as u8,
    }
}

/// Euclidean wraparound of a single coordinate moved by one of -1, 0, 1.
fn wrap_coord(c: u8, d: i8, size: u8) -> (r: u8)
    requires
        1 <= size,
        c < size,
        -1 <= d <= 1,
    ensures
        r == (c + d) % (size as int),
        r < size,
{
    if d == -1 {
        if c == 0 {
            proof {
                lemma_fundamental_div_mod_converse(c as int - 1, size as int, -1, size as int - 1);
            }
            size - 1
        } else {
            proof {
                lemma_fundamental_div_mod_converse(c as int - 1, size as int, 0, c as int - 1);
            }
            c - 1
        }
    } else if d == 1 {
        if c == size - 1 {
            proof {
                lemma_fundamental_div_mod_converse(c as int + 1, size as int, 1, 0);
            }
            0
        } else {
            proof {
                lemma_fundamental_div_mod_converse(c as int + 1, size as int, 0, c as int + 1);
            }
            c + 1
        }
    } else {
        proof {
            lemma_fundamental_div_mod_converse(c as int, size as int, 0, c as int);
        }
        c
    }
}

/// Move `point` by `delta` on a `width` by `height` torus.
///
/// This is the board's sole boundary policy: there is no wall, moving off
/// one edge wraps to the opposite edge.
pub fn add_with_wraparound(point: Point, delta: Vector, width: u8, height: u8) -> (r: Point)
    requires
        1 <= width,
        1 <= height,
        point.x < width,
        point.y < height,
        -1 <= delta.dx <= 1,
        -1 <= delta.dy <= 1,
    ensures
        r == wrap_add(point, delta, width, height),
        r.x < width,
        r.y < height,
{
    Point {
        x: wrap_coord(point.x, delta.dx, width),
        y: wrap_coord(point.y, delta.dy, height),
    }
}

/// Moving from a boundary cell lands on the opposite edge: stepping left
/// from the left edge arrives at the right edge, and likewise for the
/// other three directions.
pub proof fn lemma_wraparound_boundary(p: Point, width: u8, height: u8)
    requires
        1 <= width,
        1 <= height,
        p.x < width,
        p.y < height,
    ensures
        p.x == 0 ==> wrap_add(p, direction_vector(Direction::Left), width, height)
            == (Point { x: (width - 1) as u8, y: p.y }),
        p.y == 0 ==> wrap_add(p, direction_vector(Direction::Up), width, height)
            == (Point { x: p.x, y: (height - 1) as u8 }),
        p.x == width - 1 ==> wrap_add(p, direction_vector(Direction::Right), width, height)
            == (Point { x: 0, y: p.y }),
        p.y == height - 1 ==> wrap_add(p, direction_vector(Direction::Down), width, height)
            == (Point { x: p.x, y: 0 }),
{
    lemma_fundamental_div_mod_converse(-1, width as int, -1, width as int - 1);
    lemma_fundamental_div_mod_converse(-1, height as int, -1, height as int - 1);
    lemma_fundamental_div_mod_converse(p.x as int, width as int, 0, p.x as int);
    lemma_fundamental_div_mod_converse(p.y as int, height as int, 0, p.y as int);
    lemma_fundamental_div_mod_converse(width as int, width as int, 1, 0);
    lemma_fundamental_div_mod_converse(height as int, height as int, 1, 0);
}

} // verus!
