//! Procedural map generation: carving rooms and tunnels into an all-wall
//! grid. The generator's contract is "apply a sequence of carve operations
//! to an all-wall grid of given dimensions"; the concrete room/tunnel list
//! is caller-supplied configuration.

use crate::grid::Grid;
use crate::grid::Tile;
use vstd::assert_seqs_equal;
use vstd::prelude::*;

verus! {

/// The reference grid width.
pub const MAP_WIDTH: i32 = 80;

/// The reference grid height.
pub const MAP_HEIGHT: i32 = 45;

/// An axis-aligned rectangle used as a room footprint. A room carve opens
/// the interior `(x1, x2) x (y1, y2)`, exclusive of the boundary
/// row/column.
#[derive(Clone, Copy, Debug, PartialEq, Eq, Structural)]
pub struct Rect {
    pub x1: i32,
    pub y1: i32,
    pub x2: i32,
    pub y2: i32,
}

impl Rect {
    /// A rectangle from an origin and a size: `x2 = x + w`, `y2 = y + h`.
    pub fn new(x: i32, y: i32, w: i32, h: i32) -> (r: Rect)
        requires
            i32::MIN <= x + w <= i32::MAX,
            i32::MIN <= y + h <= i32::MAX,
        ensures
            r.x1 == x,
            r.y1 == y,
            r.x2 == x + w,
            r.y2 == y + h,
    {
        Rect { x1: x, y1: y, x2: x + w, y2: y + h }
    }
}

/// One carve operation: a room interior, a horizontal tunnel (a row span,
/// endpoints inclusive, in either order), or a vertical tunnel (a column
/// span, likewise).
#[derive(Clone, Copy, Debug, PartialEq, Eq, Structural)]
pub enum CarveOp {
    Room(Rect),
    HTunnel { x1: i32, x2: i32, y: i32 },
    VTunnel { y1: i32, y2: i32, x: i32 },
}

/// The set of cells a single carve operation opens.
pub open spec fn op_covers(op: CarveOp, x: int, y: int) -> bool {
    match op {
        CarveOp::Room(r) => r.x1 < x < r.x2 && r.y1 < y < r.y2,
        CarveOp::HTunnel { x1, x2, y: ty } => {
            let lo = if x1 <= x2 { x1 as int } else { x2 as int };
            let hi = if x1 <= x2 { x2 as int } else { x1 as int };
            lo <= x <= hi && y == ty as int
        },
        CarveOp::VTunnel { y1, y2, x: tx } => {
            let lo = if y1 <= y2 { y1 as int } else { y2 as int };
            let hi = if y1 <= y2 { y2 as int } else { y1 as int };
            lo <= y <= hi && x == tx as int
        },
    }
}

/// The set of cells some operation of the list opens.
pub open spec fn covered(ops: Seq<CarveOp>, x: int, y: int) -> bool {
    exists|k: int| 0 <= k < ops.len() && #[trigger] op_covers(ops[k], x, y)
}

/// Every cell the operation would touch lies inside a `width x height`
/// grid. An operation whose coordinates fall outside is a configuration
/// error, excluded by the carve functions' preconditions.
pub open spec fn op_in_bounds(op: CarveOp, width: int, height: int) -> bool {
    match op {
        CarveOp::Room(r) => {
            &&& 0 <= r.x1 + 1
            &&& r.x1 < width
            &&& r.x2 <= width
            &&& 0 <= r.y1 + 1
            &&& r.y1 < height
            &&& r.y2 <= height
        },
        CarveOp::HTunnel { x1, x2, y } => {
            &&& 0 <= x1 < width
            &&& 0 <= x2 < width
            &&& 0 <= y < height
        },
        CarveOp::VTunnel { y1, y2, x } => {
            &&& 0 <= y1 < height
            &&& 0 <= y2 < height
            &&& 0 <= x < width
        },
    }
}

/// The grid after a list of carves: every covered cell is empty, every
/// other cell keeps its tile. Carving only ever opens cells; it never
/// re-walls one.
pub open spec fn carve_result(g: Seq<Seq<Tile>>, ops: Seq<CarveOp>) -> Seq<Seq<Tile>> {
    Seq::new(
        g.len(),
        |x: int|
            Seq::new(
                g[x].len(),
                |y: int|
                    if covered(ops, x, y) {
                        Tile::empty_spec()
                    } else {
                        g[x][y]
                    },
            ),
    )
}

/// Carve the interior of `room` to empty, leaving the rectangle's own
/// boundary row/column untouched.
pub fn create_room(room: Rect, grid: &mut Grid)
    requires
        old(grid).wf(),
        op_in_bounds(CarveOp::Room(room), old(grid).width as int, old(grid).height as int),
    ensures
        final(grid).wf(),
        final(grid).width == old(grid).width,
        final(grid).height == old(grid).height,
        forall|i: int, j: int|
            old(grid).in_bounds(i, j) ==> #[trigger] final(grid)@[i][j] == (if op_covers(
                CarveOp::Room(room),
                i,
                j,
            ) {
                Tile::empty_spec()
            } else {
                old(grid)@[i][j]
            }),
{
    let ghost g0 = grid@;
    let width = grid.width;
    let height = grid.height;
    let mut x: i32 = room.x1 + 1;
    while x < room.x2
        invariant
            grid.wf(),
            grid.width == width,
            grid.height == height,
            room.x1 + 1 <= x,
            x <= room.x2 || x == room.x1 + 1,
            op_in_bounds(CarveOp::Room(room), width as int, height as int),
            g0.len() == width as int,
            forall|i: int| 0 <= i < width as int ==> (#[trigger] g0[i]).len() == height as int,
            forall|i: int, j: int|
                0 <= i < width as int && 0 <= j < height as int ==> #[trigger] grid@[i][j] == (
                if room.x1 < i < x as int && room.y1 < j < room.y2 {
                    Tile::empty_spec()
                } else {
                    g0[i][j]
                }),
        decreases room.x2 - x,
    {
        let ghost gx = grid@;
        let mut y: i32 = room.y1 + 1;
        while y < room.y2
            invariant
                grid.wf(),
                grid.width == width,
                grid.height == height,
                room.x1 + 1 <= x < room.x2,
                room.y1 + 1 <= y,
                y <= room.y2 || y == room.y1 + 1,
                op_in_bounds(CarveOp::Room(room), width as int, height as int),
                gx.len() == width as int,
                forall|i: int| 0 <= i < width as int ==> (#[trigger] gx[i]).len() == height as int,
                forall|i: int, j: int|
                    0 <= i < width as int && 0 <= j < height as int ==> #[trigger] grid@[i][j]
                        == (if i == x as int && room.y1 < j < y as int {
                        Tile::empty_spec()
                    } else {
                        gx[i][j]
                    }),
            decreases room.y2 - y,
        {
            grid.set_tile(x, y, Tile::empty());
            y = y + 1;
        }
        x = x + 1;
    }
}

/// Carve a one-row tunnel at row `y`, from `min(x1, x2)` to `max(x1, x2)`
/// inclusive.
pub fn create_h_tunnel(x1: i32, x2: i32, y: i32, grid: &mut Grid)
    requires
        old(grid).wf(),
        op_in_bounds(CarveOp::HTunnel { x1, x2, y }, old(grid).width as int, old(grid).height as int),
    ensures
        final(grid).wf(),
        final(grid).width == old(grid).width,
        final(grid).height == old(grid).height,
        forall|i: int, j: int|
            old(grid).in_bounds(i, j) ==> #[trigger] final(grid)@[i][j] == (if op_covers(
                CarveOp::HTunnel { x1, x2, y },
                i,
                j,
            ) {
                Tile::empty_spec()
            } else {
                old(grid)@[i][j]
            }),
{
    let ghost g0 = grid@;
    let width = grid.width;
    let height = grid.height;
    let lo = if x1 <= x2 {
        x1
    } else {
        x2
    };
    let hi = if x1 <= x2 {
        x2
    } else {
        x1
    };
    let mut x: i32 = lo;
    while x < hi + 1
        invariant
            grid.wf(),
            grid.width == width,
            grid.height == height,
            lo <= x <= hi + 1,
            0 <= lo <= hi < width as int,
            0 <= y < height as int,
            forall|i: int, j: int|
                0 <= i < width as int && 0 <= j < height as int ==> #[trigger] grid@[i][j] == (
                if lo as int <= i < x as int && j == y as int {
                    Tile::empty_spec()
                } else {
                    g0[i][j]
                }),
        decreases hi + 1 - x,
    {
        grid.set_tile(x, y, Tile::empty());
        x = x + 1;
    }
}

/// Carve a one-column tunnel at column `x`, from `min(y1, y2)` to
/// `max(y1, y2)` inclusive.
pub fn create_v_tunnel(y1: i32, y2: i32, x: i32, grid: &mut Grid)
    requires
        old(grid).wf(),
        op_in_bounds(CarveOp::VTunnel { y1, y2, x }, old(grid).width as int, old(grid).height as int),
    ensures
        final(grid).wf(),
        final(grid).width == old(grid).width,
        final(grid).height == old(grid).height,
        forall|i: int, j: int|
            old(grid).in_bounds(i, j) ==> #[trigger] final(grid)@[i][j] == (if op_covers(
                CarveOp::VTunnel { y1, y2, x },
                i,
                j,
            ) {
                Tile::empty_spec()
            } else {
                old(grid)@[i][j]
            }),
{
    let ghost g0 = grid@;
    let width = grid.width;
    let height = grid.height;
    let lo = if y1 <= y2 {
        y1
    } else {
        y2
    };
    let hi = if y1 <= y2 {
        y2
    } else {
        y1
    };
    let mut y: i32 = lo;
    while y < hi + 1
        invariant
            grid.wf(),
            grid.width == width,
            grid.height == height,
            lo <= y <= hi + 1,
            0 <= lo <= hi < height as int,
            0 <= x < width as int,
            forall|i: int, j: int|
                0 <= i < width as int && 0 <= j < height as int ==> #[trigger] grid@[i][j] == (
                if lo as int <= j < y as int && i == x as int {
                    Tile::empty_spec()
                } else {
                    g0[i][j]
                }),
        decreases hi + 1 - y,
    {
        grid.set_tile(x, y, Tile::empty());
        y = y + 1;
    }
}

/// Apply one carve operation.
pub fn apply_op(op: CarveOp, grid: &mut Grid)
    requires
        old(grid).wf(),
        op_in_bounds(op, old(grid).width as int, old(grid).height as int),
    ensures
        final(grid).wf(),
        final(grid).width == old(grid).width,
        final(grid).height == old(grid).height,
        forall|i: int, j: int|
            old(grid).in_bounds(i, j) ==> #[trigger] final(grid)@[i][j] == (if op_covers(
                op,
                i,
                j,
            ) {
                Tile::empty_spec()
            } else {
                old(grid)@[i][j]
            }),
{
    match op {
        CarveOp::Room(r) => create_room(r, grid),
        CarveOp::HTunnel { x1, x2, y } => create_h_tunnel(x1, x2, y, grid),
        CarveOp::VTunnel { y1, y2, x } => create_v_tunnel(y1, y2, x, grid),
    }
}

/// Covering by a list extended with one more operation.
proof fn lemma_covered_push(ops: Seq<CarveOp>, op: CarveOp, x: int, y: int)
    ensures
        covered(ops.push(op), x, y) == (covered(ops, x, y) || op_covers(op, x, y)),
{
    if covered(ops, x, y) {
        let k = choose|k: int| 0 <= k < ops.len() && #[trigger] op_covers(ops[k], x, y);
        assert(op_covers(ops.push(op)[k], x, y));
    }
    if op_covers(op, x, y) {
        assert(op_covers(ops.push(op)[ops.len() as int], x, y));
    }
    if covered(ops.push(op), x, y) {
        let k = choose|k: int|
            0 <= k < ops.push(op).len() && #[trigger] op_covers(ops.push(op)[k], x, y);
        if k < ops.len() {
            assert(op_covers(ops[k], x, y));
        }
    }
}

/// Apply a list of carve operations in order. Later carves may overwrite
/// earlier wall cells, but a carve never re-walls an already-empty cell,
/// so the final grid does not depend on the order.
pub fn apply_carves(ops: &Vec<CarveOp>, grid: &mut Grid)
    requires
        old(grid).wf(),
        forall|k: int|
            0 <= k < ops@.len() ==> op_in_bounds(
                #[trigger] ops@[k],
                old(grid).width as int,
                old(grid).height as int,
            ),
    ensures
        final(grid).wf(),
        final(grid).width == old(grid).width,
        final(grid).height == old(grid).height,
        final(grid)@ == carve_result(old(grid)@, ops@),
        forall|i: int, j: int|
            old(grid).in_bounds(i, j) ==> #[trigger] final(grid)@[i][j] == (if covered(
                ops@,
                i,
                j,
            ) {
                Tile::empty_spec()
            } else {
                old(grid)@[i][j]
            }),
{
    let ghost g0 = grid@;
    let width = grid.width;
    let height = grid.height;
    let mut k: usize = 0;
    while k < ops.len()
        invariant
            grid.wf(),
            grid.width == width,
            grid.height == height,
            0 <= k <= ops@.len(),
            g0.len() == width as int,
            forall|i: int| 0 <= i < width as int ==> (#[trigger] g0[i]).len() == height as int,
            forall|m: int|
                0 <= m < ops@.len() ==> op_in_bounds(#[trigger] ops@[m], width as int, height as int),
            forall|i: int, j: int|
                0 <= i < width as int && 0 <= j < height as int ==> #[trigger] grid@[i][j] == (
                if covered(ops@.subrange(0, k as int), i, j) {
                    Tile::empty_spec()
                } else {
                    g0[i][j]
                }),
        decreases ops@.len() - k,
    {
        let ghost prefix = ops@.subrange(0, k as int);
        let op = ops[k];
        apply_op(op, grid);
        proof {
            assert_seqs_equal!(ops@.subrange(0, k as int + 1) == prefix.push(op));
            assert forall|i: int, j: int|
                0 <= i < width as int && 0 <= j < height as int implies #[trigger] grid@[i][j] == (
            if covered(ops@.subrange(0, k as int + 1), i, j) {
                Tile::empty_spec()
            } else {
                g0[i][j]
            }) by {
                lemma_covered_push(prefix, op, i, j);
            }
        }
        k = k + 1;
    }
    proof {
        assert_seqs_equal!(ops@.subrange(0, ops@.len() as int) == ops@);
        assert(grid@ =~~= carve_result(g0, ops@));
    }
}

/// Build a grid of the given dimensions with every cell a wall, then apply
/// the carve operations in order. The result opens exactly the covered
/// cells: every cell inside a carved room or tunnel is empty, every other
/// cell is a wall.
pub fn generate(width: i32, height: i32, ops: &Vec<CarveOp>) -> (g: Grid)
    requires
        0 <= width,
        0 <= height,
        forall|k: int|
            0 <= k < ops@.len() ==> op_in_bounds(#[trigger] ops@[k], width as int, height as int),
    ensures
        g.wf(),
        g.width == width,
        g.height == height,
        forall|i: int, j: int|
            g.in_bounds(i, j) ==> #[trigger] g@[i][j] == (if covered(ops@, i, j) {
                Tile::empty_spec()
            } else {
                Tile::wall_spec()
            }),
{
    let mut grid = Grid::filled(width, height, Tile::wall());
    apply_carves(ops, &mut grid);
    grid
}

/// The reference layout: two 10 x 15 rooms at fixed origins joined by one
/// horizontal tunnel.
pub open spec fn reference_ops() -> Seq<CarveOp> {
    seq![
        CarveOp::Room(Rect { x1: 20, y1: 15, x2: 30, y2: 30 }),
        CarveOp::Room(Rect { x1: 50, y1: 15, x2: 60, y2: 30 }),
        CarveOp::HTunnel { x1: 25, x2: 55, y: 23 },
    ]
}

/// The reference map: an all-wall 80 x 45 grid with the reference layout
/// carved into it.
pub fn make_map() -> (g: Grid)
    ensures
        g.wf(),
        g.width == MAP_WIDTH,
        g.height == MAP_HEIGHT,
        forall|i: int, j: int|
            g.in_bounds(i, j) ==> #[trigger] g@[i][j] == (if covered(reference_ops(), i, j) {
                Tile::empty_spec()
            } else {
                Tile::wall_spec()
            }),
{
    let room1 = Rect::new(20, 15, 10, 15);
    let room2 = Rect::new(50, 15, 10, 15);
    let mut ops: Vec<CarveOp> = Vec::new();
    ops.push(CarveOp::Room(room1));
    ops.push(CarveOp::Room(room2));
    ops.push(CarveOp::HTunnel { x1: 25, x2: 55, y: 23 });
    proof {
        assert_seqs_equal!(ops@ == reference_ops());
    }
    generate(MAP_WIDTH, MAP_HEIGHT, &ops)
}

/// Carving is idempotent: applying the same operation list twice yields
/// the same grid as applying it once.
pub proof fn lemma_carve_idempotent(g: Seq<Seq<Tile>>, ops: Seq<CarveOp>)
    ensures
        carve_result(carve_result(g, ops), ops) == carve_result(g, ops),
{
    let once = carve_result(g, ops);
    let twice = carve_result(once, ops);
    assert forall|x: int| 0 <= x < twice.len() implies twice[x] =~= once[x] by {
        assert forall|y: int| 0 <= y < twice[x].len() implies twice[x][y] == once[x][y] by {
            assert(once[x].len() == g[x].len());
        }
    }
    assert(twice =~~= once);
}

/// Two operation lists that hold the same operations carve the same grid,
/// whatever their order or repetition: a carve only ever opens cells, so
/// only the set of operations matters.
pub proof fn lemma_carve_order_irrelevant(
    g: Seq<Seq<Tile>>,
    ops1: Seq<CarveOp>,
    ops2: Seq<CarveOp>,
)
    requires
        forall|op: CarveOp| ops1.contains(op) <==> ops2.contains(op),
    ensures
        carve_result(g, ops1) == carve_result(g, ops2),
{
    assert forall|x: int, y: int| covered(ops1, x, y) == covered(ops2, x, y) by {
        if covered(ops1, x, y) {
            let k = choose|k: int| 0 <= k < ops1.len() && #[trigger] op_covers(ops1[k], x, y);
            assert(ops1.contains(ops1[k]));
            let m = choose|m: int| 0 <= m < ops2.len() && ops2[m] == ops1[k];
            assert(op_covers(ops2[m], x, y));
        }
        if covered(ops2, x, y) {
            let k = choose|k: int| 0 <= k < ops2.len() && #[trigger] op_covers(ops2[k], x, y);
            assert(ops2.contains(ops2[k]));
            let m = choose|m: int| 0 <= m < ops1.len() && ops1[m] == ops2[k];
            assert(op_covers(ops1[m], x, y));
        }
    }
    let r1 = carve_result(g, ops1);
    let r2 = carve_result(g, ops2);
    assert forall|x: int| 0 <= x < r1.len() implies r1[x] =~= r2[x] by {}
    assert(r1 =~~= r2);
}

/// The cell lies on the rectangle's own boundary row or column.
pub open spec fn on_room_boundary(r: Rect, x: int, y: int) -> bool {
    &&& r.x1 <= x <= r.x2
    &&& r.y1 <= y <= r.y2
    &&& (x == r.x1 || x == r.x2 || y == r.y1 || y == r.y2)
}

/// A room carve opens only the rectangle's interior: it never touches the
/// boundary row/column.
pub proof fn lemma_room_spares_boundary(r: Rect, x: int, y: int)
    requires
        on_room_boundary(r, x, y),
    ensures
        !op_covers(CarveOp::Room(r), x, y),
{
}

/// A cell on a room's boundary keeps its tile — a wall stays a wall —
/// unless another operation of the list (a tunnel, or a different room)
/// independently covers it.
pub proof fn lemma_room_boundary_stays(
    g: Seq<Seq<Tile>>,
    ops: Seq<CarveOp>,
    r: Rect,
    x: int,
    y: int,
)
    requires
        0 <= x < g.len(),
        0 <= y < g[x].len(),
        on_room_boundary(r, x, y),
        forall|k: int|
            0 <= k < ops.len() && #[trigger] ops[k] != CarveOp::Room(r) ==> !op_covers(
                ops[k],
                x,
                y,
            ),
    ensures
        carve_result(g, ops)[x][y] == g[x][y],
{
    assert forall|k: int| 0 <= k < ops.len() implies !op_covers(#[trigger] ops[k], x, y) by {
        if ops[k] == CarveOp::Room(r) {
            lemma_room_spares_boundary(r, x, y);
        }
    }
    assert(!covered(ops, x, y));
}

} // verus!
