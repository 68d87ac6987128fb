//! The render compositor: a background pass that paints every grid cell by
//! its sight-blocking flag, then an entity pass that stamps every entity in
//! sequence order, so that entities show above terrain and later entities
//! above earlier ones.

use crate::color::dark_ground_colour;
use crate::color::dark_wall_colour;
use crate::color::Color;
use crate::entity::Object;
use crate::frame::Frame;
use crate::grid::Game;
use crate::grid::Tile;
use vstd::prelude::*;

verus! {

/// The background color a cell receives: the "dark wall" color if the tile
/// blocks sight, the "dark ground" color otherwise.
pub open spec fn background_colour(t: Tile) -> Color {
    if t.block_sight {
        dark_wall_colour()
    } else {
        dark_ground_colour()
    }
}

/// Entity `k` of the sequence stands at `(x, y)`.
pub open spec fn object_at(objects: Seq<Object>, k: int, x: int, y: int) -> bool {
    objects[k].x == x && objects[k].y == y
}

/// Some entity of the sequence stands at `(x, y)`.
pub open spec fn some_object_at(objects: Seq<Object>, x: int, y: int) -> bool {
    exists|k: int| 0 <= k < objects.len() && #[trigger] object_at(objects, k, x, y)
}

/// No later entity of the sequence shares entity `k`'s position, so `k` is
/// the one drawn on top there.
pub open spec fn topmost_at(objects: Seq<Object>, k: int) -> bool {
    forall|m: int|
        k < m < objects.len() ==> !#[trigger] object_at(
            objects,
            m,
            objects[k].x as int,
            objects[k].y as int,
        )
}

/// The index of the last entity among the first `upto` standing at
/// `(x, y)`, or `-1` if none does.
pub open spec fn last_index_at(objects: Seq<Object>, upto: int, x: int, y: int) -> int
    decreases upto,
{
    if upto <= 0 {
        -1
    } else if objects[upto - 1].x == x && objects[upto - 1].y == y {
        upto - 1
    } else {
        last_index_at(objects, upto - 1, x, y)
    }
}

/// If entity `k` stands at its own position and no later entity up to
/// `upto` shares it, then `k` is the last index there.
proof fn lemma_last_index_topmost(objects: Seq<Object>, k: int, upto: int)
    requires
        0 <= k < upto <= objects.len(),
        forall|m: int|
            k < m < upto ==> !#[trigger] object_at(
                objects,
                m,
                objects[k].x as int,
                objects[k].y as int,
            ),
    ensures
        last_index_at(objects, upto, objects[k].x as int, objects[k].y as int) == k,
    decreases upto,
{
    if upto == k + 1 {
    } else {
        assert(!object_at(objects, upto - 1, objects[k].x as int, objects[k].y as int));
        lemma_last_index_topmost(objects, k, upto - 1);
    }
}

/// If no entity among the first `upto` stands at `(x, y)`, no last index
/// exists there.
proof fn lemma_last_index_none(objects: Seq<Object>, upto: int, x: int, y: int)
    requires
        forall|m: int| 0 <= m < upto ==> !#[trigger] object_at(objects, m, x, y),
    ensures
        last_index_at(objects, upto, x, y) == -1,
    decreases upto,
{
    if upto > 0 {
        assert(!object_at(objects, upto - 1, x, y));
        lemma_last_index_none(objects, upto - 1, x, y);
    }
}

/// One full compositing pass. The background pass paints every cell's
/// background by its tile's sight-blocking flag, leaving no cell
/// unpainted; the entity pass then stamps every entity in sequence order.
/// Entities render above the background — a stamp never disturbs a cell's
/// background color — and at overlapping coordinates the last entity of
/// the sequence wins; cells under no entity keep the foreground and glyph
/// they had before the call.
pub fn render_all(frame: &mut Frame, game: &Game, objects: &[Object])
    requires
        old(frame).wf(),
        game.map.wf(),
        old(frame).width == game.map.width,
        old(frame).height == game.map.height,
        forall|k: int|
            0 <= k < objects@.len() ==> game.map.in_bounds(
                (#[trigger] objects@[k]).x as int,
                objects@[k].y as int,
            ),
    ensures
        final(frame).wf(),
        final(frame).width == old(frame).width,
        final(frame).height == old(frame).height,
        forall|i: int, j: int|
            game.map.in_bounds(i, j) ==> (#[trigger] final(frame)@[i][j]).bg == background_colour(
                game.map@[i][j],
            ),
        forall|k: int|
            0 <= k < objects@.len() && #[trigger] topmost_at(objects@, k)
                ==> final(frame)@[objects@[k].x as int][objects@[k].y as int].fg
                == objects@[k].color
                && final(frame)@[objects@[k].x as int][objects@[k].y as int].glyph
                == objects@[k].glyph,
        forall|i: int, j: int|
            game.map.in_bounds(i, j) && !#[trigger] some_object_at(objects@, i, j)
                ==> final(frame)@[i][j].fg == old(frame)@[i][j].fg
                && final(frame)@[i][j].glyph == old(frame)@[i][j].glyph,
{
    let ghost f0 = frame@;
    let width = game.map.width;
    let height = game.map.height;
    let mut y: i32 = 0;
    while y < height
        invariant
            frame.wf(),
            game.map.wf(),
            frame.width == width,
            frame.height == height,
            game.map.width == width,
            game.map.height == height,
            0 <= y <= height,
            f0.len() == width as int,
            forall|i: int| 0 <= i < width as int ==> (#[trigger] f0[i]).len() == height as int,
            forall|i: int, j: int|
                0 <= i < width as int && 0 <= j < y as int ==> (#[trigger] frame@[i][j]).bg
                    == background_colour(game.map@[i][j]),
            forall|i: int, j: int|
                0 <= i < width as int && y as int <= j < height as int ==> (
                #[trigger] frame@[i][j]).bg == f0[i][j].bg,
            forall|i: int, j: int|
                0 <= i < width as int && 0 <= j < height as int ==> (#[trigger] frame@[i][j]).fg
                    == f0[i][j].fg && frame@[i][j].glyph == f0[i][j].glyph,
        decreases height - y,
    {
        let mut x: i32 = 0;
        while x < width
            invariant
                frame.wf(),
                game.map.wf(),
                frame.width == width,
                frame.height == height,
                game.map.width == width,
                game.map.height == height,
                0 <= y < height,
                0 <= x <= width,
                f0.len() == width as int,
                forall|i: int| 0 <= i < width as int ==> (#[trigger] f0[i]).len() == height as int,
                forall|i: int, j: int|
                    0 <= i < width as int && 0 <= j < y as int ==> (#[trigger] frame@[i][j]).bg
                        == background_colour(game.map@[i][j]),
                forall|i: int|
                    0 <= i < x as int ==> (#[trigger] frame@[i][y as int]).bg == background_colour(
                        game.map@[i][y as int],
                    ),
                forall|i: int|
                    x as int <= i < width as int ==> (#[trigger] frame@[i][y as int]).bg
                        == f0[i][y as int].bg,
                forall|i: int, j: int|
                    0 <= i < width as int && (y as int) < j && j < height as int ==> (
                    #[trigger] frame@[i][j]).bg == f0[i][j].bg,
                forall|i: int, j: int|
                    0 <= i < width as int && 0 <= j < height as int ==> (#[trigger] frame@[i][j]).fg
                        == f0[i][j].fg && frame@[i][j].glyph == f0[i][j].glyph,
            decreases width - x,
        {
            let wall = game.map.get(x, y).block_sight;
            if wall {
                frame.set_background(x, y, crate::color::colour_dark_wall());
            } else {
                frame.set_background(x, y, crate::color::colour_dark_ground());
            }
            x = x + 1;
        }
        y = y + 1;
    }
    let ghost f1 = frame@;
    let mut k: usize = 0;
    while k < objects.len()
        invariant
            frame.wf(),
            game.map.wf(),
            frame.width == width,
            frame.height == height,
            game.map.width == width,
            game.map.height == height,
            0 <= k <= objects@.len(),
            forall|m: int|
                0 <= m < objects@.len() ==> game.map.in_bounds(
                    (#[trigger] objects@[m]).x as int,
                    objects@[m].y as int,
                ),
            f1.len() == width as int,
            forall|i: int| 0 <= i < width as int ==> (#[trigger] f1[i]).len() == height as int,
            forall|i: int, j: int|
                0 <= i < width as int && 0 <= j < height as int ==> (#[trigger] frame@[i][j]).bg
                    == f1[i][j].bg,
            forall|i: int, j: int|
                0 <= i < width as int && 0 <= j < height as int && last_index_at(
                    objects@,
                    k as int,
                    i,
                    j,
                ) == -1 ==> (#[trigger] frame@[i][j]).fg == f1[i][j].fg && frame@[i][j].glyph
                    == f1[i][j].glyph,
            forall|i: int, j: int|
                0 <= i < width as int && 0 <= j < height as int && last_index_at(
                    objects@,
                    k as int,
                    i,
                    j,
                ) >= 0 ==> (#[trigger] frame@[i][j]).fg == objects@[last_index_at(
                    objects@,
                    k as int,
                    i,
                    j,
                )].color && frame@[i][j].glyph == objects@[last_index_at(
                    objects@,
                    k as int,
                    i,
                    j,
                )].glyph,
        decreases objects@.len() - k,
    {
        let o = objects[k];
        o.draw(frame);
        k = k + 1;
    }
    proof {
        assert forall|k2: int|
            0 <= k2 < objects@.len() && #[trigger] topmost_at(objects@, k2) implies frame@[objects@[k2].x as int][objects@[k2].y as int].fg
            == objects@[k2].color && frame@[objects@[k2].x as int][objects@[k2].y as int].glyph
            == objects@[k2].glyph by {
            lemma_last_index_topmost(objects@, k2, objects@.len() as int);
        }
        assert forall|i: int, j: int|
            game.map.in_bounds(i, j) && !#[trigger] some_object_at(objects@, i, j) implies frame@[i][j].fg
            == f0[i][j].fg && frame@[i][j].glyph == f0[i][j].glyph by {
            assert forall|m: int| 0 <= m < objects@.len() implies !#[trigger] object_at(
                objects@,
                m,
                i,
                j,
            ) by {}
            lemma_last_index_none(objects@, objects@.len() as int, i, j);
        }
    }
}

} // verus!
