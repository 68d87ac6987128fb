use dungeon_core::color::Color;
use dungeon_core::entity::Object;
use dungeon_core::grid::Game;
use dungeon_core::input::handle_keys;
use dungeon_core::input::try_move;
use dungeon_core::input::Action;
use dungeon_core::input::Key;
use dungeon_core::mapgen::make_map;

fn white() -> Color {
    Color::new(255, 255, 255)
}

// An entity at (25, 23) moving west into a wall cell at (24, 23) stays
// where it is.
#[test]
fn move_into_wall_is_noop() {
    let mut game = Game { map: make_map() };
    // wall the cell west of the player
    game.map.set_tile(24, 23, dungeon_core::grid::Tile::wall());
    assert!(game.map.get(24, 23).blocked);
    let mut pc = Object::new(25, 23, '@', white());
    pc.move_by(-1, 0, &game);
    assert_eq!(pc.x, 25);
    assert_eq!(pc.y, 23);
}

// Moving into an unblocked cell lands exactly on (x+dx, y+dy).
#[test]
fn move_into_open_cell_updates_position() {
    let game = Game { map: make_map() };
    let mut pc = Object::new(25, 23, '@', white());
    pc.move_by(1, 0, &game);
    assert_eq!(pc.x, 26);
    assert_eq!(pc.y, 23);
    pc.move_by(0, 1, &game);
    assert_eq!(pc.x, 26);
    assert_eq!(pc.y, 24);
    // a diagonal is just a (dx, dy) pair
    pc.move_by(1, 1, &game);
    assert_eq!(pc.x, 27);
    assert_eq!(pc.y, 25);
}

#[test]
fn move_keeps_glyph_and_color() {
    let game = Game { map: make_map() };
    let mut pc = Object::new(25, 23, '@', Color::new(1, 2, 3));
    pc.move_by(1, 0, &game);
    assert_eq!(pc.glyph, '@');
    assert_eq!(pc.color, Color::new(1, 2, 3));
}

#[test]
fn try_move_rejects_off_grid_destination() {
    let game = Game { map: make_map() };
    let mut pc = Object::new(0, 0, '@', white());
    try_move(&mut pc, -1, 0, &game);
    assert_eq!(pc.x, 0);
    assert_eq!(pc.y, 0);
}

#[test]
fn arrow_keys_map_to_unit_deltas() {
    let game = Game { map: make_map() };
    let mut pc = Object::new(25, 23, '@', white());
    assert_eq!(handle_keys(Key::Right, &mut pc, &game), Action::Nothing);
    assert_eq!((pc.x, pc.y), (26, 23));
    assert_eq!(handle_keys(Key::Down, &mut pc, &game), Action::Nothing);
    assert_eq!((pc.x, pc.y), (26, 24));
    assert_eq!(handle_keys(Key::Left, &mut pc, &game), Action::Nothing);
    assert_eq!((pc.x, pc.y), (25, 24));
    assert_eq!(handle_keys(Key::Up, &mut pc, &game), Action::Nothing);
    assert_eq!((pc.x, pc.y), (25, 23));
}

#[test]
fn arrow_key_against_wall_keeps_position() {
    let game = Game { map: make_map() };
    // (21, 16) is a room's north-west open corner: west and north are walls
    let mut pc = Object::new(21, 16, '@', white());
    assert_eq!(handle_keys(Key::Left, &mut pc, &game), Action::Nothing);
    assert_eq!((pc.x, pc.y), (21, 16));
    assert_eq!(handle_keys(Key::Up, &mut pc, &game), Action::Nothing);
    assert_eq!((pc.x, pc.y), (21, 16));
}

#[test]
fn escape_requests_exit() {
    let game = Game { map: make_map() };
    let mut pc = Object::new(25, 23, '@', white());
    assert_eq!(handle_keys(Key::Escape, &mut pc, &game), Action::Exit);
    assert_eq!((pc.x, pc.y), (25, 23));
}

#[test]
fn alt_enter_requests_fullscreen_toggle() {
    let game = Game { map: make_map() };
    let mut pc = Object::new(25, 23, '@', white());
    assert_eq!(
        handle_keys(Key::Enter { alt: true }, &mut pc, &game),
        Action::ToggleFullscreen
    );
    assert_eq!((pc.x, pc.y), (25, 23));
    assert_eq!(
        handle_keys(Key::Enter { alt: false }, &mut pc, &game),
        Action::Nothing
    );
}

#[test]
fn other_keys_do_nothing() {
    let game = Game { map: make_map() };
    let mut pc = Object::new(25, 23, '@', white());
    assert_eq!(handle_keys(Key::Other, &mut pc, &game), Action::Nothing);
    assert_eq!((pc.x, pc.y), (25, 23));
}
