//! Rendering model: solid colours and cell-fill commands.
//!
//! The game does not talk to a display directly. Rendering produces a
//! list of [`DrawCmd`] values, each asking for one square cell to be
//! filled with one colour; a host front end executes them against the
//! real display surface.

use vstd::prelude::*;
use crate::geometry::Point;

verus! {

/// The solid colours the game draws with.
#[derive(Debug, Clone, Copy, PartialEq, Eq, Structural)]
pub enum Color {
    /// Background; used to erase a vacated cell.
    Black,
    /// First palette entry of a food cell.
    White,
    /// Second palette entry of a food cell.
    Red,
    /// The snake's body.
    Green,
}

/// One command for the display surface: fill the axis-aligned square of
/// `size` by `size` pixels whose top-left pixel is `(px, py)` with `color`.
#[derive(Debug, Clone, Copy, PartialEq, Eq, Structural)]
pub struct DrawCmd {
    pub px: u16,
    pub py: u16,
    pub size: u8,
    pub color: Color,
}

/// The command that paints the board cell `p`, upscaled by `pixel_width`
/// pixels per cell.
pub open spec fn cell_cmd(p: Point, color: Color, pixel_width: u8) -> DrawCmd {
    DrawCmd {
        px: (p.x * pixel_width) as u16,
        py: (p.y * pixel_width) as u16,
        size: pixel_width,
        color,
    }
}

/// Render a logical game position as pixels on the screen, with upscaling.
pub fn render_point(point: Point, color: Color, pixel_width: u8) -> (r: DrawCmd)
    ensures
        r == cell_cmd(point, color, pixel_width),
{
    proof {
        assert(point.x * pixel_width <= 255 * 255) by (nonlinear_arith)
            requires
                point.x <= 255,
                pixel_width <= 255,
        ;
        assert(point.y * pixel_width <= 255 * 255) by (nonlinear_arith)
            requires
                point.y <= 255,
                pixel_width <= 255,
        ;
    }
    DrawCmd {
        px: (point.x as u16) * (pixel_width as u16),
        py: (point.y as u16) * (pixel_width as u16),
        size: pixel_width,
        color,
    }
}

} // verus!
