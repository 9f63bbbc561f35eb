//! The canvas and its two bands.

use vstd::prelude::*;

verus! {

/// The width of the canvas of a chart, in pixels.
pub const CANVAS_WIDTH: u32 = 1024;

/// The height of the canvas of a chart, in pixels.
pub const CANVAS_HEIGHT: u32 = 768;

/// A drawing surface, by its size in pixels.
#[derive(Clone, Copy, Debug, PartialEq, Eq, Structural)]
pub struct Canvas {
    pub width: u32,
    pub height: u32,
}

/// A rectangle of pixels of a canvas: `width` columns from column `left` on, and
/// `height` rows from row `top` on.
#[derive(Clone, Copy, Debug, PartialEq, Eq, Structural)]
pub struct Band {
    pub left: u32,
    pub top: u32,
    pub width: u32,
    pub height: u32,
}

impl Band {
    /// Whether the pixel in column `x` and row `y` belongs to the band.
    pub open spec fn holds(self, x: int, y: int) -> bool {
        self.left <= x < self.left + self.width && self.top <= y < self.top + self.height
    }
}

impl Canvas {
    /// The number of rows of the upper band: half the height, and the odd row, where
    /// there is one.
    pub open spec fn middle(self) -> int {
        self.height / 2 + self.height % 2
    }

    /// The upper band.
    pub open spec fn upper(self) -> Band {
        Band { left: 0, top: 0, width: self.width, height: self.middle() as u32 }
    }

    /// The lower band.
    pub open spec fn lower(self) -> Band {
        Band {
            left: 0,
            top: self.middle() as u32,
            width: self.width,
            height: (self.height - self.middle()) as u32,
        }
    }

    /// The canvas of a chart.
    pub fn standard() -> (r: Canvas)
        ensures
            r == (Canvas { width: CANVAS_WIDTH, height: CANVAS_HEIGHT }),
            r.upper() == (Band { left: 0, top: 0, width: 1024, height: 384 }),
            r.lower() == (Band { left: 0, top: 384, width: 1024, height: 384 }),
    {
        Canvas { width: CANVAS_WIDTH, height: CANVAS_HEIGHT }
    }

    /// Splits the canvas into two horizontal bands of the full width, the upper
    /// above the lower. The bands share no pixel, leave none out, and are of one
    /// height, but for the odd row of a canvas of odd height.
    pub fn split(&self) -> (r: (Band, Band))
        ensures
            r.0 == self.upper(),
            r.1 == self.lower(),
            forall|x: int, y: int|
                0 <= x < self.width && 0 <= y < self.height ==> (#[trigger] r.0.holds(x, y)
                    != #[trigger] r.1.holds(x, y)),
            forall|x: int, y: int|
                #[trigger] r.0.holds(x, y) || #[trigger] r.1.holds(x, y) ==> 0 <= x < self.width
                    && 0 <= y < self.height,
            r.0.height - r.1.height == self.height % 2,
    {
        let middle: u32 = self.height / 2 + self.height % 2;
        (
            Band { left: 0, top: 0, width: self.width, height: middle },
            Band { left: 0, top: middle, width: self.width, height: self.height - middle },
        )
    }
}

} // verus!
