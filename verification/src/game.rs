//! The game: one snake, a table of live food, the spawn policy, and
//! the two-rate update cycle.
//!
//! `fast_update` is called many times per simulation step with the
//! current joystick sample; `slow_update` advances the simulation one
//! step; `render` lists the draw commands for the current state.

use vstd::prelude::*;
use crate::draw::{cell_cmd, DrawCmd};
use crate::food::{palette, Food};
use crate::food_map::{point_key, FoodMap};
use crate::geometry::{Direction, Point, Vector};
use crate::snake::{
    snake_eats, snake_render_cmds, step_cells, step_food, step_old_tail, Snake, SNAKE_CAP,
};

verus! {

broadcast use vstd::set::axiom_set_remove_len;

/// The number of food items the board is kept stocked with.
pub const NUM_FOOD: usize = 1;

/// Column of the fixed candidate cell where new food is placed.
pub const FOOD_SPAWN_X: u8 = 12;

/// Row of the fixed candidate cell where new food is placed.
pub const FOOD_SPAWN_Y: u8 = 5;

/// Food is withheld while the snake's head is above this row ...
pub const SPAWN_GUARD_ROW: u8 = 5;

/// ... and its body is shorter than this many cells.
pub const SPAWN_GUARD_LENGTH: usize = 5;

/// Board dimensions in cells and the upscale factor from cells to
/// pixels.
#[derive(Debug, Clone, Copy, PartialEq, Eq, Structural)]
pub struct BoardConfig {
    pub width: u8,
    pub height: u8,
    pub pixel_width: u8,
}

impl BoardConfig {
    /// The board is non-degenerate and every cell of it fits in the
    /// snake's body buffer.
    pub open spec fn wf(self) -> bool {
        &&& 1 <= self.width
        &&& 1 <= self.height
        &&& self.width * self.height <= SNAKE_CAP
    }
}

/// The heading opposite to `d`.
pub open spec fn opposite_heading(d: Direction) -> Direction {
    match d {
        Direction::Up => Direction::Down,
        Direction::Down => Direction::Up,
        Direction::Left => Direction::Right,
        Direction::Right => Direction::Left,
    }
}

/// What one input sample does to the heading: an absent sample and a
/// sample opposite to the current heading are ignored, any other
/// sample becomes the new heading.
pub open spec fn next_direction(current: Direction, input: Option<Direction>) -> Direction {
    match input {
        Some(d) => if d == opposite_heading(current) {
            current
        } else {
            d
        },
        None => current,
    }
}

/// An input opposite to the current heading is ignored, so the snake
/// can never reverse straight into itself; any other input is applied.
pub proof fn lemma_reversal_guard(current: Direction, input: Direction)
    ensures
        input == opposite_heading(current) ==> next_direction(current, Some(input)) == current,
        input != opposite_heading(current) ==> next_direction(current, Some(input)) == input,
{
}

/// Whether the spawn-eligibility guard withholds food placement: it
/// does while the head sits in the top rows and the body is still
/// short, to keep food away from the starting position early on.
pub open spec fn spawn_blocked(cells: Seq<Point>) -> bool {
    cells[0].y < SPAWN_GUARD_ROW && cells.len() < SPAWN_GUARD_LENGTH
}

/// The fixed candidate cell where new food is placed.
pub open spec fn spawn_cell() -> Point {
    Point { x: FOOD_SPAWN_X, y: FOOD_SPAWN_Y }
}

/// The food table after the respawn step of one slow tick: while the
/// table is below the target count and the guard does not withhold
/// placement, a fresh item is placed at the candidate cell.
pub open spec fn post_spawn_food(
    cells: Seq<Point>,
    food: Map<(u8, u8), Food>,
    num_food: int,
) -> Map<(u8, u8), Food> {
    if food.dom().len() < num_food && !spawn_blocked(cells) {
        food.insert(point_key(spawn_cell()), Food::initial())
    } else {
        food
    }
}

/// The food table after the animation step of one slow tick: every
/// live item's colour cursor advances one palette entry.
pub open spec fn advance_food(food: Map<(u8, u8), Food>) -> Map<(u8, u8), Food> {
    Map::new(|k: (u8, u8)| food.dom().contains(k), |k: (u8, u8)| food[k].advanced())
}

/// Advancing the animation changes no keys: the food cells stay as
/// they were.
pub proof fn lemma_advance_food_dom(food: Map<(u8, u8), Food>)
    ensures
        advance_food(food).dom() == food.dom(),
{
    assert(advance_food(food).dom() =~= food.dom());
}

/// Every body cell lies on the board.
pub open spec fn in_bounds(cells: Seq<Point>, width: u8, height: u8) -> bool {
    forall|i: int|
        0 <= i < cells.len() ==> (#[trigger] cells[i]).x < width && cells[i].y < height
}

/// The commands that draw the live food items. The table never holds
/// more than one item, so its draw order needs no convention.
pub open spec fn food_render_cmds(food: Map<(u8, u8), Food>, pixel_width: u8) -> Seq<DrawCmd> {
    if exists|k: (u8, u8)| food.dom().contains(k) {
        let k = choose|k: (u8, u8)| food.dom().contains(k);
        seq![cell_cmd(Point { x: k.0, y: k.1 }, palette(food[k].cursor()), pixel_width)]
    } else {
        Seq::empty()
    }
}

/// The whole game: one snake, the live food, the target food count,
/// and the board configuration.
pub struct Game {
    pub snake: Snake,
    pub food: FoodMap,
    pub num_food: usize,
    pub config: BoardConfig,
}

impl Game {
    /// The game invariant, re-established by every slow tick: a valid
    /// non-empty snake on the board, and at most the target number of
    /// live food items.
    pub open spec fn wf(self) -> bool {
        &&& self.config.wf()
        &&& self.num_food == NUM_FOOD
        &&& self.snake.wf()
        &&& self.snake.cells().len() >= 1
        &&& in_bounds(self.snake.cells(), self.config.width, self.config.height)
        &&& self.food.wf()
        &&& self.food@.dom().len() <= self.num_food
    }

    /// A new game on `config`: a one-cell snake at the board's centre
    /// heading right, no food yet.
    pub fn new(config: BoardConfig) -> (r: Game)
        requires
            config.wf(),
        ensures
            r.wf(),
            r.config == config,
            r.num_food == NUM_FOOD,
            r.snake.cells() == seq![
                (Point { x: (config.width / 2) as u8, y: (config.height / 2) as u8 }),
            ],
            r.snake.heading() == Direction::Right,
            r.snake.vacated() is None,
            r.food@ == crate::food_map::no_food(),
    {
        let snake = Snake::new(
            Point::new(config.width / 2, config.height / 2),
            Direction::Right,
        );
        let food = FoodMap::new();
        let r = Game { snake, food, num_food: NUM_FOOD, config };
        proof {
            assert(in_bounds(r.snake.cells(), config.width, config.height));
        }
        r
    }

    /// The fast update cycle: poll one joystick sample and steer the
    /// snake, unless the sample would reverse it straight into itself.
    pub fn fast_update(&mut self, input: Option<Direction>)
        ensures
            final(self).snake.heading() == next_direction(old(self).snake.heading(), input),
            final(self).snake.cells() == old(self).snake.cells(),
            final(self).snake.vacated() == old(self).snake.vacated(),
            final(self).food == old(self).food,
            final(self).num_food == old(self).num_food,
            final(self).config == old(self).config,
            old(self).wf() ==> final(self).wf(),
    {
        if let Some(direction) = input {
            // Only change direction if it's not the opposite direction to the current.
            let sampled: Vector = Vector::from(direction);
            let current: Vector = Vector::from(self.snake.get_direction());
            if sampled.opposite() != current {
                self.snake.set_direction(direction);
            }
        }
    }

    /// The slow update cycle, once per game step: move the snake
    /// (consuming food under the new head), restock the food table
    /// subject to the spawn guard, then advance every food item's
    /// colour animation.
    pub fn slow_update(&mut self)
        requires
            old(self).wf(),
            snake_eats(
                old(self).snake.cells(),
                old(self).snake.heading(),
                old(self).food@,
                old(self).config.width,
                old(self).config.height,
            ) ==> old(self).snake.cells().len() < SNAKE_CAP,
        ensures
            final(self).wf(),
            final(self).config == old(self).config,
            final(self).num_food == old(self).num_food,
            final(self).snake.heading() == old(self).snake.heading(),
            ({
                let cells0 = old(self).snake.cells();
                let dir0 = old(self).snake.heading();
                let food0 = old(self).food@;
                let w = old(self).config.width;
                let h = old(self).config.height;
                let cells1 = step_cells(cells0, dir0, food0, w, h);
                let food1 = step_food(cells0, dir0, food0, w, h);
                &&& final(self).snake.cells() == cells1
                &&& final(self).snake.vacated() == step_old_tail(
                    cells0,
                    dir0,
                    food0,
                    w,
                    h,
                    old(self).snake.vacated(),
                )
                &&& final(self).food@ == advance_food(
                    post_spawn_food(cells1, food1, NUM_FOOD as int),
                )
                &&& final(self).food@.dom() == post_spawn_food(
                    cells1,
                    food1,
                    NUM_FOOD as int,
                ).dom()
            }),
    {
        let width = self.config.width;
        let height = self.config.height;
        self.snake.update(&mut self.food, width, height);

        let ghost snake1 = self.snake;
        let ghost cells1 = self.snake.cells();
        let ghost food1 = self.food@;

        while self.food.len() < self.num_food && !(self.snake.get_head().y < SPAWN_GUARD_ROW
            && self.snake.length() < SPAWN_GUARD_LENGTH)
            invariant
                self.num_food == NUM_FOOD,
                self.config == old(self).config,
                self.food.wf(),
                self.snake == snake1,
                self.snake.cells().len() >= 1,
                self.snake.cells() == cells1,
                food1.dom().finite(),
                food1.dom().len() <= NUM_FOOD,
                self.food@ == food1 || (self.food@ == food1.insert(
                    point_key(spawn_cell()),
                    Food::initial(),
                ) && food1.dom().len() < NUM_FOOD && !spawn_blocked(cells1)),
            decreases NUM_FOOD - self.food@.dom().len(),
        {
            proof {
                if self.food@.dom().len() == 0 {
                    self.food@.dom().lemma_len0_is_empty();
                }
            }
            let placed = self.food.insert(Point::new(FOOD_SPAWN_X, FOOD_SPAWN_Y), Food::new());
            proof {
                if placed is Err {
                    assert(false);
                }
            }
        }
        proof {
            assert(self.food@ == post_spawn_food(cells1, food1, NUM_FOOD as int));
        }

        let ghost pre_advance = self.food@;
        let entries = self.food.entries();
        let mut i: usize = 0;
        while i < entries.len()
            invariant
                i <= entries@.len(),
                self.num_food == NUM_FOOD,
                self.config == old(self).config,
                self.food.wf(),
                self.snake == snake1,
                self.food@.dom() == pre_advance.dom(),
                pre_advance.dom().finite(),
                pre_advance.dom().len() <= NUM_FOOD,
                entries@.len() == pre_advance.dom().len(),
                forall|j: int|
                    0 <= j < entries@.len() ==> pre_advance.contains_pair(
                        (#[trigger] entries@[j]).0,
                        entries@[j].1,
                    ),
                forall|j: int, l: int| 0 <= j < l < entries@.len() ==> entries@[j].0 != entries@[l].0,
                forall|k: (u8, u8)|
                    #[trigger] pre_advance.dom().contains(k) ==> exists|j: int|
                        0 <= j < entries@.len() && entries@[j].0 == k,
                forall|j: int|
                    0 <= j < entries@.len() ==> self.food@[(#[trigger] entries@[j]).0] == (if j < i {
                        entries@[j].1.advanced()
                    } else {
                        entries@[j].1
                    }),
            decreases entries@.len() - i,
        {
            let (k, f) = entries[i];
            let mut item = f;
            item.update();
            let _ = self.food.insert(Point::new(k.0, k.1), item);
            proof {
                assert(point_key(Point { x: k.0, y: k.1 }) == k);
                assert(self.food@.dom() =~= pre_advance.dom());
            }
            i = i + 1;
        }
        proof {
            assert forall|k: (u8, u8)| pre_advance.dom().contains(k) implies self.food@[k]
                == pre_advance[k].advanced() by {
                let j = choose|j: int| 0 <= j < entries@.len() && entries@[j].0 == k;
                assert(pre_advance.contains_pair(entries@[j].0, entries@[j].1));
                assert(self.food@[entries@[j].0] == entries@[j].1.advanced());
            }
            assert(self.food@ =~= advance_food(pre_advance));
            lemma_advance_food_dom(pre_advance);
        }
    }

    /// The commands that redraw the whole game: every live food cell
    /// in its current animation colour, then the snake.
    pub fn render(&self) -> (r: Vec<DrawCmd>)
        requires
            self.wf(),
        ensures
            r@ == food_render_cmds(self.food@, self.config.pixel_width) + snake_render_cmds(
                self.snake.vacated(),
                self.snake.cells(),
                self.config.pixel_width,
            ),
    {
        let mut cmds: Vec<DrawCmd> = Vec::new();
        let entries = self.food.entries();
        proof {
            assert(cmds@ =~= food_render_cmds(self.food@, self.config.pixel_width).take(0));
        }
        let mut i: usize = 0;
        while i < entries.len()
            invariant
                self.wf(),
                i <= entries@.len(),
                entries@.len() == self.food@.dom().len(),
                entries@.len() <= 1,
                forall|j: int|
                    0 <= j < entries@.len() ==> self.food@.contains_pair(
                        (#[trigger] entries@[j]).0,
                        entries@[j].1,
                    ),
                cmds@ == food_render_cmds(self.food@, self.config.pixel_width).take(i as int),
            decreases entries@.len() - i,
        {
            let (k, f) = entries[i];
            proof {
                let kc = choose|kc: (u8, u8)| self.food@.dom().contains(kc);
                if kc != k {
                    assert(self.food@.dom().remove(k).contains(kc));
                    assert(self.food@.dom().remove(k).len() == 0);
                    vstd::set_lib::lemma_set_empty_equivalency_len(self.food@.dom().remove(k));
                    assert(false);
                }
            }
            cmds.push(f.render(Point::new(k.0, k.1), self.config.pixel_width));
            proof {
                assert(cmds@ =~= food_render_cmds(self.food@, self.config.pixel_width).take(
                    i + 1,
                ));
            }
            i = i + 1;
        }
        proof {
            if entries@.len() == 0 {
                self.food@.dom().lemma_len0_is_empty();
                assert(!(exists|k: (u8, u8)| self.food@.dom().contains(k)));
            } else {
                assert(self.food@.contains_pair(entries@[0].0, entries@[0].1));
                assert(self.food@.dom().contains(entries@[0].0));
                assert(food_render_cmds(self.food@, self.config.pixel_width).len() == 1);
            }
            assert(cmds@ =~= food_render_cmds(self.food@, self.config.pixel_width));
        }
        let snake_cmds = self.snake.render(self.config.pixel_width);
        let ghost food_part = cmds@;
        let mut j: usize = 0;
        while j < snake_cmds.len()
            invariant
                j <= snake_cmds@.len(),
                cmds@ == food_part + snake_cmds@.take(j as int),
                snake_cmds@ == snake_render_cmds(
                    self.snake.vacated(),
                    self.snake.cells(),
                    self.config.pixel_width,
                ),
            decreases snake_cmds@.len() - j,
        {
            cmds.push(snake_cmds[j]);
            proof {
                assert(cmds@ =~= food_part + snake_cmds@.take(j + 1));
            }
            j = j + 1;
        }
        proof {
            assert(cmds@ =~= food_part + snake_cmds@);
        }
        cmds
    }
}

} // verus!
