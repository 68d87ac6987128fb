//! Movable entities: a positioned, drawable actor with a glyph and a
//! color, moved one step at a time against the grid's blocking state.

use crate::color::Color;
use crate::frame::Frame;
use crate::frame::FrameCell;
use crate::grid::Game;
use vstd::prelude::*;

verus! {

/// A positioned, drawable actor. Entities reference grid coordinates by
/// value and share read-only access to the grid for collision checks.
#[derive(Clone, Copy, Debug)]
pub struct Object {
    pub x: i32,
    pub y: i32,
    pub glyph: char,
    pub color: Color,
}

impl Object {
    pub fn new(x: i32, y: i32, glyph: char, color: Color) -> (o: Object)
        ensures
            o == (Object { x, y, glyph, color }),
    {
        Object { x, y, glyph, color }
    }

    /// Move by `(dx, dy)` unless the destination tile blocks movement: a
    /// blocked destination leaves the position unchanged, with no error
    /// surfaced. The caller must keep the destination inside the grid;
    /// an out-of-bounds destination is a caller error, excluded by the
    /// precondition.
    pub fn move_by(&mut self, dx: i32, dy: i32, game: &Game)
        requires
            game.map.wf(),
            game.map.in_bounds(old(self).x + dx, old(self).y + dy),
        ensures
            game.map@[old(self).x + dx][old(self).y + dy].blocked ==> *final(self) == *old(self),
            !game.map@[old(self).x + dx][old(self).y + dy].blocked ==> *final(self) == (Object {
                x: (old(self).x + dx) as i32,
                y: (old(self).y + dy) as i32,
                glyph: old(self).glyph,
                color: old(self).color,
            }),
    {
        if !game.map.get(self.x + dx, self.y + dy).blocked {
            self.x = self.x + dx;
            self.y = self.y + dy;
        }
    }

    /// Stamp this entity onto the frame: the cell at the entity's position
    /// gets the entity's color and glyph, overwriting whatever background
    /// or earlier-drawn entity occupied it; the cell's background color
    /// and every other cell stay as they were. Entity state is unchanged.
    pub fn draw(&self, frame: &mut Frame)
        requires
            old(frame).wf(),
            old(frame).in_bounds(self.x as int, self.y as int),
        ensures
            final(frame).wf(),
            final(frame).width == old(frame).width,
            final(frame).height == old(frame).height,
            final(frame)@ == old(frame)@.update(
                self.x as int,
                old(frame)@[self.x as int].update(
                    self.y as int,
                    FrameCell {
                        bg: old(frame)@[self.x as int][self.y as int].bg,
                        fg: self.color,
                        glyph: self.glyph,
                    },
                ),
            ),
    {
        frame.set_char(self.x, self.y, self.glyph, self.color);
    }
}

} // verus!
