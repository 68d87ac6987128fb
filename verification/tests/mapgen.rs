use dungeon_core::grid::Grid;
use dungeon_core::grid::Tile;
use dungeon_core::mapgen::apply_carves;
use dungeon_core::mapgen::create_h_tunnel;
use dungeon_core::mapgen::create_room;
use dungeon_core::mapgen::create_v_tunnel;
use dungeon_core::mapgen::generate;
use dungeon_core::mapgen::make_map;
use dungeon_core::mapgen::CarveOp;
use dungeon_core::mapgen::Rect;

fn reference_ops_vec() -> Vec<CarveOp> {
    vec![
        CarveOp::Room(Rect::new(20, 15, 10, 15)),
        CarveOp::Room(Rect::new(50, 15, 10, 15)),
        CarveOp::HTunnel { x1: 25, x2: 55, y: 23 },
    ]
}

#[test]
fn rect_new_derives_corners() {
    let r = Rect::new(20, 15, 10, 15);
    assert_eq!(r.x1, 20);
    assert_eq!(r.y1, 15);
    assert_eq!(r.x2, 30);
    assert_eq!(r.y2, 30);
}

#[test]
fn tile_constructors() {
    let e = Tile::empty();
    assert!(!e.blocked);
    assert!(!e.block_sight);
    let w = Tile::wall();
    assert!(w.blocked);
    assert!(w.block_sight);
}

#[test]
fn filled_grid_is_uniform() {
    let g = Grid::filled(4, 3, Tile::wall());
    assert_eq!(g.width, 4);
    assert_eq!(g.height, 3);
    for x in 0..4 {
        for y in 0..3 {
            assert_eq!(g.get(x, y), Tile::wall());
        }
    }
}

#[test]
fn set_tile_changes_one_cell() {
    let mut g = Grid::filled(4, 3, Tile::empty());
    g.set_tile(2, 1, Tile::wall());
    for x in 0..4 {
        for y in 0..3 {
            if (x, y) == (2, 1) {
                assert_eq!(g.get(x, y), Tile::wall());
            } else {
                assert_eq!(g.get(x, y), Tile::empty());
            }
        }
    }
}

// A freshly generated grid opens exactly the carved cells; the room carve
// spares the rectangle's boundary row/column.
#[test]
fn room_carve_opens_interior_only() {
    let mut g = Grid::filled(80, 45, Tile::wall());
    create_room(Rect::new(20, 15, 10, 15), &mut g);
    for x in 0..80 {
        for y in 0..45 {
            let inside = 21 <= x && x <= 29 && 16 <= y && y <= 29;
            assert_eq!(g.get(x, y).blocked, !inside);
        }
    }
    // the boundary row/column in particular stays walled
    for y in 15..=30 {
        assert!(g.get(20, y).blocked);
        assert!(g.get(30, y).blocked);
    }
    for x in 20..=30 {
        assert!(g.get(x, 15).blocked);
        assert!(g.get(x, 30).blocked);
    }
}

#[test]
fn h_tunnel_carves_inclusive_row() {
    let mut g = Grid::filled(80, 45, Tile::wall());
    create_h_tunnel(25, 55, 23, &mut g);
    for x in 0..80 {
        for y in 0..45 {
            let on_tunnel = y == 23 && 25 <= x && x <= 55;
            assert_eq!(g.get(x, y).blocked, !on_tunnel);
        }
    }
}

#[test]
fn h_tunnel_endpoints_in_either_order() {
    let mut a = Grid::filled(10, 5, Tile::wall());
    let mut b = Grid::filled(10, 5, Tile::wall());
    create_h_tunnel(2, 7, 3, &mut a);
    create_h_tunnel(7, 2, 3, &mut b);
    for x in 0..10 {
        for y in 0..5 {
            assert_eq!(a.get(x, y), b.get(x, y));
        }
    }
}

#[test]
fn v_tunnel_carves_inclusive_column() {
    let mut g = Grid::filled(10, 20, Tile::wall());
    create_v_tunnel(12, 4, 6, &mut g);
    for x in 0..10 {
        for y in 0..20 {
            let on_tunnel = x == 6 && 4 <= y && y <= 12;
            assert_eq!(g.get(x, y).blocked, !on_tunnel);
        }
    }
}

// The reference map: two rooms joined by one horizontal tunnel.
#[test]
fn make_map_reference_layout() {
    let g = make_map();
    assert_eq!(g.width, 80);
    assert_eq!(g.height, 45);
    for x in 0..80 {
        for y in 0..45 {
            let in_room1 = 21 <= x && x <= 29 && 16 <= y && y <= 29;
            let in_room2 = 51 <= x && x <= 59 && 16 <= y && y <= 29;
            let on_tunnel = y == 23 && 25 <= x && x <= 55;
            let open = in_room1 || in_room2 || on_tunnel;
            assert_eq!(g.get(x, y).blocked, !open, "cell ({}, {})", x, y);
            assert_eq!(g.get(x, y).block_sight, !open, "cell ({}, {})", x, y);
        }
    }
}

// Carving is idempotent: applying the same list twice equals applying it
// once.
#[test]
fn carving_twice_equals_once() {
    let ops = reference_ops_vec();
    let once = generate(80, 45, &ops);
    let mut twice = generate(80, 45, &ops);
    apply_carves(&ops, &mut twice);
    for x in 0..80 {
        for y in 0..45 {
            assert_eq!(once.get(x, y), twice.get(x, y));
        }
    }
}

// Carve order does not change the final grid.
#[test]
fn carve_order_does_not_matter() {
    let mut forward = Grid::filled(80, 45, Tile::wall());
    let mut backward = Grid::filled(80, 45, Tile::wall());
    let ops = reference_ops_vec();
    let mut reversed = ops.clone();
    reversed.reverse();
    apply_carves(&ops, &mut forward);
    apply_carves(&reversed, &mut backward);
    for x in 0..80 {
        for y in 0..45 {
            assert_eq!(forward.get(x, y), backward.get(x, y));
        }
    }
}

// Two isolated wall punches on an otherwise-empty grid leave every other
// cell open.
#[test]
fn wall_punches_leave_rest_open() {
    let mut g = Grid::filled(80, 45, Tile::empty());
    g.set_tile(30, 22, Tile::wall());
    g.set_tile(50, 22, Tile::wall());
    for x in 0..80 {
        for y in 0..45 {
            let punched = (x, y) == (30, 22) || (x, y) == (50, 22);
            assert_eq!(g.get(x, y).blocked, punched);
        }
    }
}

#[test]
fn generate_with_no_ops_is_all_wall() {
    let g = generate(5, 4, &Vec::new());
    for x in 0..5 {
        for y in 0..4 {
            assert_eq!(g.get(x, y), Tile::wall());
        }
    }
}

#[test]
fn empty_grid_has_no_cells() {
    let g = Grid::filled(0, 0, Tile::wall());
    assert_eq!(g.width, 0);
    assert_eq!(g.height, 0);
}

#[test]
fn degenerate_room_carves_nothing() {
    let mut g = Grid::filled(8, 8, Tile::wall());
    create_room(Rect::new(2, 2, 1, 1), &mut g);
    for x in 0..8 {
        for y in 0..8 {
            assert!(g.get(x, y).blocked);
        }
    }
}
