//! A food item: one collectible cell with a cycling colour animation.

use vstd::prelude::*;
use crate::draw::{cell_cmd, Color, DrawCmd};
use crate::geometry::Point;

verus! {

/// Number of entries in the food colour palette.
pub const PALETTE_LEN: u8 = 2;

/// The food colour palette, as an index function: entry 0 is white,
/// entry 1 is red.
pub open spec fn palette(i: int) -> Color {
    if i == 0 {
        Color::White
    } else {
        Color::Red
    }
}

/// A single food cell's animation state: a cursor into the colour
/// palette, advanced one step per slow tick and wrapping forever.
#[derive(Debug, Clone, Copy, PartialEq, Eq, Structural)]
pub struct Food {
    cursor: u8,
}

impl Food {
    /// The palette position the animation currently shows.
    pub closed spec fn cursor(self) -> int {
        self.cursor as int
    }

    /// The cursor is always a valid palette index.
    pub closed spec fn wf(self) -> bool {
        self.cursor < PALETTE_LEN
    }

    /// The animation state a fresh food item starts in.
    pub closed spec fn initial() -> Food {
        Food { cursor: 0 }
    }

    /// A fresh food item, showing the first palette entry (white).
    pub fn new() -> (r: Self)
        ensures
            r == Food::initial(),
            r.wf(),
            r.cursor() == 0,
    {
        Food { cursor: 0 }
    }

    /// The state one animation step ahead of this one.
    pub closed spec fn advanced(self) -> Food {
        Food { cursor: if self.cursor + 1 == PALETTE_LEN { 0u8 } else { (self.cursor + 1) as u8 } }
    }

    /// Step the animation cursor to the next palette entry, wrapping
    /// back to the first after the last.
    pub fn update(&mut self)
        requires
            old(self).wf(),
        ensures
            *final(self) == old(self).advanced(),
            final(self).wf(),
            final(self).cursor() == (old(self).cursor() + 1) % (PALETTE_LEN as int),
    {
        if self.cursor + 1 == PALETTE_LEN {
            self.cursor = 0;
        } else {
            self.cursor = self.cursor + 1;
        }
    }

    /// The colour the animation currently shows.
    pub fn current_color(&self) -> (r: Color)
        requires
            self.wf(),
        ensures
            r == palette(self.cursor()),
    {
        if self.cursor == 0 {
            Color::White
        } else {
            Color::Red
        }
    }

    /// The command that paints this food item at cell `point`.
    pub fn render(&self, point: Point, pixel_width: u8) -> (r: DrawCmd)
        requires
            self.wf(),
        ensures
            r == cell_cmd(point, palette(self.cursor()), pixel_width),
    {
        crate::draw::render_point(point, self.current_color(), pixel_width)
    }
}

/// One animation step moves the cursor forward by one palette entry,
/// modulo the palette length, and keeps it a valid palette index.
pub proof fn lemma_advanced_cursor(f: Food)
    requires
        f.wf(),
    ensures
        f.advanced().cursor() == (f.cursor() + 1) % (PALETTE_LEN as int),
        f.advanced().wf(),
{
}

} // verus!
