//! The world grid: a fixed-size rectangular array of tiles, addressed by
//! `(x, y)` with `0 <= x < width` and `0 <= y < height`.

use vstd::assert_seqs_equal;
use vstd::prelude::*;

verus! {

/// The atomic cell state: whether the cell blocks movement and whether it
/// blocks sight. The generator only ever produces the two canonical values
/// `Tile::empty()` and `Tile::wall()`, though the type does not forbid
/// other combinations.
#[derive(Clone, Copy, Debug, PartialEq, Eq, Structural)]
pub struct Tile {
    pub blocked: bool,
    pub block_sight: bool,
}

impl Tile {
    /// The canonical walkable, see-through tile.
    pub open spec fn empty_spec() -> Tile {
        Tile { blocked: false, block_sight: false }
    }

    /// The canonical impassable, sight-blocking tile.
    pub open spec fn wall_spec() -> Tile {
        Tile { blocked: true, block_sight: true }
    }

    pub fn empty() -> (t: Tile)
        ensures
            t == Tile::empty_spec(),
    {
        Tile { blocked: false, block_sight: false }
    }

    pub fn wall() -> (t: Tile)
        ensures
            t == Tile::wall_spec(),
    {
        Tile { blocked: true, block_sight: true }
    }
}

/// A rectangular grid of tiles with fixed dimensions. Every cell is always
/// initialized; cells are mutated only while the map is generated and are
/// read-only afterwards.
pub struct Grid {
    pub width: i32,
    pub height: i32,
    pub tiles: Vec<Vec<Tile>>,
}

impl View for Grid {
    type V = Seq<Seq<Tile>>;

    /// A grid is seen as a sequence of columns, each a sequence of tiles,
    /// so that cell `(x, y)` is `self@[x][y]`.
    open spec fn view(&self) -> Seq<Seq<Tile>> {
        Seq::new(self.tiles@.len(), |x: int| self.tiles@[x]@)
    }
}

impl Grid {
    /// Every column is present and every column holds exactly `height` cells.
    pub open spec fn wf(&self) -> bool {
        &&& 0 <= self.width
        &&& 0 <= self.height
        &&& self@.len() == self.width as int
        &&& forall|x: int|
            0 <= x < self.width as int ==> (#[trigger] self@[x]).len() == self.height as int
    }

    /// The coordinate pair lies inside the grid.
    pub open spec fn in_bounds(&self, x: int, y: int) -> bool {
        0 <= x < self.width as int && 0 <= y < self.height as int
    }

    /// A grid of the given dimensions with every cell set to `tile`.
    pub fn filled(width: i32, height: i32, tile: Tile) -> (g: Grid)
        requires
            0 <= width,
            0 <= height,
        ensures
            g.wf(),
            g.width == width,
            g.height == height,
            forall|x: int, y: int| g.in_bounds(x, y) ==> #[trigger] g@[x][y] == tile,
    {
        let mut tiles: Vec<Vec<Tile>> = Vec::new();
        let mut x: i32 = 0;
        while x < width
            invariant
                0 <= x <= width,
                0 <= height,
                tiles@.len() == x as int,
                forall|i: int|
                    0 <= i < x as int ==> (#[trigger] tiles@[i])@.len() == height as int,
                forall|i: int, j: int|
                    0 <= i < x as int && 0 <= j < height as int ==> (#[trigger] tiles@[i]@[j])
                        == tile,
            decreases width - x,
        {
            let mut column: Vec<Tile> = Vec::new();
            let mut y: i32 = 0;
            while y < height
                invariant
                    0 <= y <= height,
                    column@.len() == y as int,
                    forall|j: int| 0 <= j < y as int ==> #[trigger] column@[j] == tile,
                decreases height - y,
            {
                column.push(tile);
                y = y + 1;
            }
            tiles.push(column);
            x = x + 1;
        }
        Grid { width, height, tiles }
    }

    /// Read the tile at an in-bounds coordinate. Out-of-bounds access is a
    /// caller error, excluded by the precondition.
    pub fn get(&self, x: i32, y: i32) -> (t: Tile)
        requires
            self.wf(),
            self.in_bounds(x as int, y as int),
        ensures
            t == self@[x as int][y as int],
    {
        proof {
            assert(self@.len() == self.tiles@.len());
            assert(self@[x as int] == self.tiles@[x as int]@);
        }
        self.tiles[x as usize][y as usize]
    }

    /// Reassign the tile at an in-bounds coordinate; used only while the
    /// map is generated.
    pub fn set_tile(&mut self, x: i32, y: i32, tile: Tile)
        requires
            old(self).wf(),
            old(self).in_bounds(x as int, y as int),
        ensures
            final(self).wf(),
            final(self).width == old(self).width,
            final(self).height == old(self).height,
            final(self)@ == old(self)@.update(
                x as int,
                old(self)@[x as int].update(y as int, tile),
            ),
    {
        proof {
            assert(old(self)@.len() == old(self).tiles@.len());
            assert(old(self)@[x as int] == old(self).tiles@[x as int]@);
        }
        self.tiles[x as usize][y as usize] = tile;
        proof {
            assert_seqs_equal!(self@ == old(self)@.update(
                x as int,
                old(self)@[x as int].update(y as int, tile),
            ));
        }
    }
}

/// The aggregate holding the single grid of a session. Movement and the
/// render compositor read it; nothing mutates it after generation.
pub struct Game {
    pub map: Grid,
}

} // verus!
