//! The off-screen frame buffer that one compositing pass fills: per cell a
//! background color, a foreground color and a glyph, ready to be
//! transferred to a display.

use crate::color::Color;
use vstd::assert_seqs_equal;
use vstd::prelude::*;

verus! {

/// One cell of the frame buffer.
#[derive(Clone, Copy, Debug, PartialEq, Eq, Structural)]
pub struct FrameCell {
    pub bg: Color,
    pub fg: Color,
    pub glyph: char,
}

/// A fresh cell: black background, white foreground, blank glyph.
pub open spec fn default_cell() -> FrameCell {
    FrameCell { bg: Color { r: 0, g: 0, b: 0 }, fg: Color { r: 255, g: 255, b: 255 }, glyph: ' ' }
}

/// A rectangular frame buffer with fixed dimensions, addressed like the
/// grid: cell `(x, y)` is `self@[x][y]`.
pub struct Frame {
    pub width: i32,
    pub height: i32,
    pub cells: Vec<Vec<FrameCell>>,
}

impl View for Frame {
    type V = Seq<Seq<FrameCell>>;

    open spec fn view(&self) -> Seq<Seq<FrameCell>> {
        Seq::new(self.cells@.len(), |x: int| self.cells@[x]@)
    }
}

impl Frame {
    /// Every column is present and holds exactly `height` cells.
    pub open spec fn wf(&self) -> bool {
        &&& 0 <= self.width
        &&& 0 <= self.height
        &&& self@.len() == self.width as int
        &&& forall|x: int|
            0 <= x < self.width as int ==> (#[trigger] self@[x]).len() == self.height as int
    }

    /// The coordinate pair lies inside the frame.
    pub open spec fn in_bounds(&self, x: int, y: int) -> bool {
        0 <= x < self.width as int && 0 <= y < self.height as int
    }

    /// A frame of the given dimensions with every cell fresh.
    pub fn new(width: i32, height: i32) -> (f: Frame)
        requires
            0 <= width,
            0 <= height,
        ensures
            f.wf(),
            f.width == width,
            f.height == height,
            forall|x: int, y: int| f.in_bounds(x, y) ==> #[trigger] f@[x][y] == default_cell(),
    {
        let blank = FrameCell {
            bg: Color { r: 0, g: 0, b: 0 },
            fg: Color { r: 255, g: 255, b: 255 },
            glyph: ' ',
        };
        let mut cells: Vec<Vec<FrameCell>> = Vec::new();
        let mut x: i32 = 0;
        while x < width
            invariant
                0 <= x <= width,
                0 <= height,
                blank == default_cell(),
                cells@.len() == x as int,
                forall|i: int|
                    0 <= i < x as int ==> (#[trigger] cells@[i])@.len() == height as int,
                forall|i: int, j: int|
                    0 <= i < x as int && 0 <= j < height as int ==> (#[trigger] cells@[i]@[j])
                        == default_cell(),
            decreases width - x,
        {
            let mut column: Vec<FrameCell> = Vec::new();
            let mut y: i32 = 0;
            while y < height
                invariant
                    0 <= y <= height,
                    blank == default_cell(),
                    column@.len() == y as int,
                    forall|j: int| 0 <= j < y as int ==> #[trigger] column@[j] == default_cell(),
                decreases height - y,
            {
                column.push(blank);
                y = y + 1;
            }
            cells.push(column);
            x = x + 1;
        }
        Frame { width, height, cells }
    }

    /// Paint the background color of one cell, leaving its foreground and
    /// glyph as they are.
    pub fn set_background(&mut self, x: i32, y: i32, color: Color)
        requires
            old(self).wf(),
            old(self).in_bounds(x as int, y as int),
        ensures
            final(self).wf(),
            final(self).width == old(self).width,
            final(self).height == old(self).height,
            final(self)@ == old(self)@.update(
                x as int,
                old(self)@[x as int].update(
                    y as int,
                    FrameCell {
                        bg: color,
                        fg: old(self)@[x as int][y as int].fg,
                        glyph: old(self)@[x as int][y as int].glyph,
                    },
                ),
            ),
    {
        proof {
            assert(old(self)@.len() == old(self).cells@.len());
            assert(old(self)@[x as int] == old(self).cells@[x as int]@);
        }
        let cell = FrameCell {
            bg: color,
            fg: self.cells[x as usize][y as usize].fg,
            glyph: self.cells[x as usize][y as usize].glyph,
        };
        self.cells[x as usize][y as usize] = cell;
        proof {
            assert_seqs_equal!(self@ == old(self)@.update(
                x as int,
                old(self)@[x as int].update(y as int, cell),
            ));
        }
    }

    /// Write a glyph with its foreground color at one cell, leaving the
    /// cell's background as it is.
    pub fn set_char(&mut self, x: i32, y: i32, glyph: char, fg: Color)
        requires
            old(self).wf(),
            old(self).in_bounds(x as int, y as int),
        ensures
            final(self).wf(),
            final(self).width == old(self).width,
            final(self).height == old(self).height,
            final(self)@ == old(self)@.update(
                x as int,
                old(self)@[x as int].update(
                    y as int,
                    FrameCell { bg: old(self)@[x as int][y as int].bg, fg, glyph },
                ),
            ),
    {
        proof {
            assert(old(self)@.len() == old(self).cells@.len());
            assert(old(self)@[x as int] == old(self).cells@[x as int]@);
        }
        let cell = FrameCell { bg: self.cells[x as usize][y as usize].bg, fg, glyph };
        self.cells[x as usize][y as usize] = cell;
        proof {
            assert_seqs_equal!(self@ == old(self)@.update(
                x as int,
                old(self)@[x as int].update(y as int, cell),
            ));
        }
    }

    /// Read one cell.
    pub fn get(&self, x: i32, y: i32) -> (c: FrameCell)
        requires
            self.wf(),
            self.in_bounds(x as int, y as int),
        ensures
            c == self@[x as int][y as int],
    {
        proof {
            assert(self@.len() == self.cells@.len());
            assert(self@[x as int] == self.cells@[x as int]@);
        }
        self.cells[x as usize][y as usize]
    }
}

} // verus!
