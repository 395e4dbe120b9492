//! The snake: an ordered body of cells (head first), the current
//! heading, and the most recently vacated tail cell.
//!
//! The body lives in a `heapless::Deque`, an outside collection; the
//! operations the game needs are declared with trusted contracts over
//! [`body_points`], the mathematical contents of the deque, and the
//! [`Snake`] type is verified against them.

use vstd::prelude::*;
use crate::draw::{cell_cmd, Color, DrawCmd};
use crate::food::Food;
use crate::food_map::{point_key, FoodMap};
use crate::geometry::{add_with_wraparound, direction_vector, wrap_add, Direction, Point, Vector};

verus! {

/// Capacity of the snake's body buffer: enough for every cell of the
/// largest supported board.
pub const SNAKE_CAP: usize = 576;

#[verifier::external_type_specification]
#[verifier::external_body]
#[verifier::reject_recursive_types(T)]
pub struct ExDeque<T, const N: usize>(heapless::Deque<T, N>);

/// The cells a body buffer holds, front first.
pub uninterp spec fn body_points(d: heapless::Deque<Point, SNAKE_CAP>) -> Seq<Point>;

/// Relies on heapless::Deque::new: the new deque is empty.
#[verifier::external_body]
fn body_new() -> (d: heapless::Deque<Point, SNAKE_CAP>)
    ensures
        body_points(d) == Seq::<Point>::empty(),
{
    heapless::Deque::new()
}

/// Relies on heapless::Deque::len: the number of elements.
#[verifier::external_body]
fn body_len(d: &heapless::Deque<Point, SNAKE_CAP>) -> (n: usize)
    ensures
        n == body_points(*d).len(),
{
    d.len()
}

/// Relies on heapless::Deque::front: the first element, if any.
#[verifier::external_body]
fn body_front(d: &heapless::Deque<Point, SNAKE_CAP>) -> (r: Option<Point>)
    ensures
        body_points(*d).len() == 0 ==> r is None,
        body_points(*d).len() > 0 ==> r == Some(body_points(*d)[0]),
{
    d.front().copied()
}

/// Relies on heapless::Deque::push_front: with room in the deque the
/// element is prepended.
#[verifier::external_body]
fn body_push_front(d: &mut heapless::Deque<Point, SNAKE_CAP>, p: Point)
    requires
        body_points(*old(d)).len() < SNAKE_CAP,
    ensures
        body_points(*final(d)) == seq![p] + body_points(*old(d)),
{
    let _ = d.push_front(p);
}

/// Relies on heapless::Deque::pop_back: the last element is removed
/// and returned; an empty deque stays empty.
#[verifier::external_body]
fn body_pop_back(d: &mut heapless::Deque<Point, SNAKE_CAP>) -> (r: Option<Point>)
    ensures
        body_points(*old(d)).len() == 0 ==> r is None && *final(d) == *old(d),
        body_points(*old(d)).len() > 0 ==> r == Some(body_points(*old(d)).last())
            && body_points(*final(d)) == body_points(*old(d)).drop_last(),
{
    d.pop_back()
}

/// Relies on heapless::Deque::iter: the elements front to back.
#[verifier::external_body]
fn body_to_vec(d: &heapless::Deque<Point, SNAKE_CAP>) -> (r: Vec<Point>)
    ensures
        r@ == body_points(*d),
{
    d.iter().copied().collect()
}

/// The cell the snake's head moves onto next.
pub open spec fn next_head(cells: Seq<Point>, d: Direction, width: u8, height: u8) -> Point {
    wrap_add(cells[0], direction_vector(d), width, height)
}

/// Whether the next move lands the head on a live food cell.
pub open spec fn snake_eats(
    cells: Seq<Point>,
    d: Direction,
    food: Map<(u8, u8), Food>,
    width: u8,
    height: u8,
) -> bool {
    food.dom().contains(point_key(next_head(cells, d, width, height)))
}

/// The body after one move: the new head is prepended; the tail cell
/// is kept when food was eaten and dropped otherwise.
pub open spec fn step_cells(
    cells: Seq<Point>,
    d: Direction,
    food: Map<(u8, u8), Food>,
    width: u8,
    height: u8,
) -> Seq<Point> {
    if snake_eats(cells, d, food, width, height) {
        seq![next_head(cells, d, width, height)] + cells
    } else {
        seq![next_head(cells, d, width, height)] + cells.drop_last()
    }
}

/// The food table after one move: the consumed entry is removed, and
/// nothing else changes.
pub open spec fn step_food(
    cells: Seq<Point>,
    d: Direction,
    food: Map<(u8, u8), Food>,
    width: u8,
    height: u8,
) -> Map<(u8, u8), Food> {
    if snake_eats(cells, d, food, width, height) {
        food.remove(point_key(next_head(cells, d, width, height)))
    } else {
        food
    }
}

/// The recorded vacated tail after one move: unchanged when food was
/// eaten, else the cell the tail left.
pub open spec fn step_old_tail(
    cells: Seq<Point>,
    d: Direction,
    food: Map<(u8, u8), Food>,
    width: u8,
    height: u8,
    tail: Option<Point>,
) -> Option<Point> {
    if snake_eats(cells, d, food, width, height) {
        tail
    } else {
        Some(cells.last())
    }
}

/// Growth on consumption: when the head moves onto a live food cell,
/// one move grows the body by exactly one cell, removes that food
/// entry from the table, and leaves the recorded vacated tail as it
/// was.
pub proof fn lemma_growth_on_consumption(
    cells: Seq<Point>,
    d: Direction,
    food: Map<(u8, u8), Food>,
    width: u8,
    height: u8,
    tail: Option<Point>,
)
    requires
        cells.len() > 0,
        snake_eats(cells, d, food, width, height),
    ensures
        step_cells(cells, d, food, width, height).len() == cells.len() + 1,
        step_food(cells, d, food, width, height) == food.remove(
            point_key(next_head(cells, d, width, height)),
        ),
        !step_food(cells, d, food, width, height).dom().contains(
            point_key(next_head(cells, d, width, height)),
        ),
        step_old_tail(cells, d, food, width, height, tail) == tail,
{
}

/// No growth without consumption: when the head moves onto an empty
/// cell, one move keeps the body length constant, leaves the food
/// table untouched, and records the cell that was the last body
/// element as the vacated tail.
pub proof fn lemma_no_growth_without_consumption(
    cells: Seq<Point>,
    d: Direction,
    food: Map<(u8, u8), Food>,
    width: u8,
    height: u8,
    tail: Option<Point>,
)
    requires
        cells.len() > 0,
        !snake_eats(cells, d, food, width, height),
    ensures
        step_cells(cells, d, food, width, height).len() == cells.len(),
        step_food(cells, d, food, width, height) == food,
        step_old_tail(cells, d, food, width, height, tail) == Some(cells.last()),
{
}

/// The commands that redraw a snake: first erase the vacated tail cell
/// in the background colour, then paint every body cell green.
pub open spec fn snake_render_cmds(tail: Option<Point>, cells: Seq<Point>, pixel_width: u8) -> Seq<
    DrawCmd,
> {
    (match tail {
        Some(t) => seq![cell_cmd(t, Color::Black, pixel_width)],
        None => Seq::empty(),
    }) + Seq::new(cells.len(), |i: int| cell_cmd(cells[i], Color::Green, pixel_width))
}

/// The snake's state: its body cells (head first), its heading, and
/// the cell its tail vacated on the last move.
pub struct Snake {
    points: heapless::Deque<Point, SNAKE_CAP>,
    old_tail: Option<Point>,
    direction: Direction,
}

impl Snake {
    /// The body cells, head first.
    pub closed spec fn cells(self) -> Seq<Point> {
        body_points(self.points)
    }

    /// The current heading.
    pub closed spec fn heading(self) -> Direction {
        self.direction
    }

    /// The cell vacated on the last move, kept for incremental erase.
    pub closed spec fn vacated(self) -> Option<Point> {
        self.old_tail
    }

    /// The body never exceeds its buffer's capacity.
    pub open spec fn wf(self) -> bool {
        self.cells().len() <= SNAKE_CAP
    }

    /// A snake of one cell at `initial_point`, heading
    /// `initial_direction`, with no vacated tail yet.
    pub fn new(initial_point: Point, initial_direction: Direction) -> (r: Snake)
        ensures
            r.wf(),
            r.cells() == seq![initial_point],
            r.heading() == initial_direction,
            r.vacated() is None,
    {
        let mut points = body_new();
        body_push_front(&mut points, initial_point);
        proof {
            assert(body_points(points) =~= seq![initial_point]);
        }
        Snake { points, direction: initial_direction, old_tail: None }
    }

    /// Move the snake one cell in its current direction.
    ///
    /// The new head is the current head shifted with wraparound. When
    /// it lands on a live food cell the entry is consumed and the body
    /// grows by one; otherwise the tail cell is popped and recorded as
    /// vacated, keeping the length constant. An empty body (unreachable
    /// through this API) is left untouched.
    pub fn update(&mut self, food: &mut FoodMap, width: u8, height: u8)
        requires
            old(self).wf(),
            old(food).wf(),
            1 <= width,
            1 <= height,
            old(self).cells().len() > 0 ==> {
                &&& old(self).cells()[0].x < width
                &&& old(self).cells()[0].y < height
                &&& snake_eats(old(self).cells(), old(self).heading(), old(food)@, width, height)
                    ==> old(self).cells().len() < SNAKE_CAP
            },
        ensures
            final(self).wf(),
            final(food).wf(),
            final(self).heading() == old(self).heading(),
            old(self).cells().len() == 0 ==> *final(self) == *old(self) && *final(food) == *old(
                food,
            ),
            old(self).cells().len() > 0 ==> {
                &&& final(self).cells() == step_cells(
                    old(self).cells(),
                    old(self).heading(),
                    old(food)@,
                    width,
                    height,
                )
                &&& final(food)@ == step_food(
                    old(self).cells(),
                    old(self).heading(),
                    old(food)@,
                    width,
                    height,
                )
                &&& final(self).vacated() == step_old_tail(
                    old(self).cells(),
                    old(self).heading(),
                    old(food)@,
                    width,
                    height,
                    old(self).vacated(),
                )
            },
    {
        let old_head = match body_front(&self.points) {
            Some(p) => p,
            None => {
                return;
            },
        };
        let direction_delta = Vector::from(self.direction);
        let new_head = add_with_wraparound(old_head, direction_delta, width, height);

        let ate_food = food.remove(new_head).is_some();
        if !ate_food {
            // Keep the length constant: the head advances, so the tail
            // cell is vacated and remembered for the next redraw.
            self.old_tail = body_pop_back(&mut self.points);
        }
        body_push_front(&mut self.points, new_head);
    }

    pub fn set_direction(&mut self, direction: Direction)
        ensures
            final(self).heading() == direction,
            final(self).cells() == old(self).cells(),
            final(self).vacated() == old(self).vacated(),
    {
        self.direction = direction
    }

    pub fn get_direction(&self) -> (r: Direction)
        ensures
            r == self.heading(),
    {
        self.direction
    }

    /// The number of body cells, head included.
    pub fn length(&self) -> (n: usize)
        ensures
            n == self.cells().len(),
    {
        body_len(&self.points)
    }

    /// The head cell. The body is never empty after construction.
    pub fn get_head(&self) -> (r: Point)
        requires
            self.cells().len() > 0,
        ensures
            r == self.cells()[0],
    {
        match body_front(&self.points) {
            Some(p) => p,
            None => {
                proof {
                    assert(false);
                }
                Point { x: 0, y: 0 }
            },
        }
    }

    /// The commands that redraw this snake: erase the vacated tail
    /// cell, then paint every body cell.
    pub fn render(&self, pixel_width: u8) -> (r: Vec<DrawCmd>)
        ensures
            r@ == snake_render_cmds(self.vacated(), self.cells(), pixel_width),
    {
        let mut cmds: Vec<DrawCmd> = Vec::new();
        // Blank out the old tail position.
        if let Some(old_point) = self.old_tail {
            cmds.push(crate::draw::render_point(old_point, Color::Black, pixel_width));
        }
        let body = body_to_vec(&self.points);
        let erased: usize = cmds.len();
        let mut i: usize = 0;
        while i < body.len()
            invariant
                i <= body@.len(),
                body@ == self.cells(),
                erased == (match self.vacated() {
                    Some(_) => 1int,
                    None => 0int,
                }),
                cmds@.len() == erased + i,
                erased == 1 ==> cmds@[0] == cell_cmd(
                    self.vacated()->Some_0,
                    Color::Black,
                    pixel_width,
                ),
                forall|j: int|
                    0 <= j < i ==> cmds@[erased + j] == cell_cmd(
                        self.cells()[j],
                        Color::Green,
                        pixel_width,
                    ),
            decreases body@.len() - i,
        {
            cmds.push(crate::draw::render_point(body[i], Color::Green, pixel_width));
            i = i + 1;
        }
        proof {
            assert(cmds@ =~= snake_render_cmds(self.vacated(), self.cells(), pixel_width));
        }
        cmds
    }
}

} // verus!
