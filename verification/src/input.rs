//! Input-to-movement mapping: each decoded key event resolves to at most
//! one of toggling fullscreen, requesting exit, or a single directional
//! move of the player-controlled entity. The caller performs the display
//! action; the move itself is applied here, against the grid.

use crate::entity::Object;
use crate::grid::Game;
use vstd::prelude::*;

verus! {

/// A decoded key event, as the input source hands it over.
#[derive(Clone, Copy, Debug, PartialEq, Eq, Structural)]
pub enum Key {
    Enter { alt: bool },
    Escape,
    Up,
    Down,
    Left,
    Right,
    Other,
}

/// What the caller must do after a key is handled: toggle the display's
/// fullscreen state, end the session, or nothing beyond the move already
/// applied.
#[derive(Clone, Copy, Debug, PartialEq, Eq, Structural)]
pub enum Action {
    ToggleFullscreen,
    Exit,
    Nothing,
}

/// The key maps to a directional move.
pub open spec fn is_move_key(key: Key) -> bool {
    key == Key::Up || key == Key::Down || key == Key::Left || key == Key::Right
}

/// The movement delta of a key: up/down/left/right map to
/// `(0,-1)/(0,1)/(-1,0)/(1,0)`; every other key moves nothing.
pub open spec fn move_delta(key: Key) -> (int, int) {
    match key {
        Key::Up => (0int, -1int),
        Key::Down => (0int, 1int),
        Key::Left => (-1int, 0int),
        Key::Right => (1int, 0int),
        _ => (0int, 0int),
    }
}

/// Move the entity by `(dx, dy)` if the destination lies inside the grid
/// and its tile does not block movement; otherwise the entity stays where
/// it is (an out-of-bounds destination is rejected like a blocked one).
pub fn try_move(pc: &mut Object, dx: i32, dy: i32, game: &Game)
    requires
        game.map.wf(),
        i32::MIN <= old(pc).x + dx <= i32::MAX,
        i32::MIN <= old(pc).y + dy <= i32::MAX,
    ensures
        game.map.in_bounds(old(pc).x + dx, old(pc).y + dy)
            && !game.map@[old(pc).x + dx][old(pc).y + dy].blocked ==> *final(pc) == (Object {
            x: (old(pc).x + dx) as i32,
            y: (old(pc).y + dy) as i32,
            glyph: old(pc).glyph,
            color: old(pc).color,
        }),
        !(game.map.in_bounds(old(pc).x + dx, old(pc).y + dy)
            && !game.map@[old(pc).x + dx][old(pc).y + dy].blocked) ==> *final(pc) == *old(pc),
{
    let nx = pc.x + dx;
    let ny = pc.y + dy;
    if 0 <= nx && nx < game.map.width && 0 <= ny && ny < game.map.height {
        pc.move_by(dx, dy, game);
    }
}

/// Resolve one key event: alt-Enter asks the caller to toggle fullscreen,
/// Escape asks it to exit, an arrow key applies a single directional move
/// to the player-controlled entity (rejected silently if the destination
/// is blocked or off the grid), and every other key does nothing.
pub fn handle_keys(key: Key, pc: &mut Object, game: &Game) -> (action: Action)
    requires
        game.map.wf(),
        game.map.in_bounds(old(pc).x as int, old(pc).y as int),
    ensures
        action == (match key {
            Key::Enter { alt } => if alt {
                Action::ToggleFullscreen
            } else {
                Action::Nothing
            },
            Key::Escape => Action::Exit,
            _ => Action::Nothing,
        }),
        !is_move_key(key) ==> *final(pc) == *old(pc),
        is_move_key(key) && game.map.in_bounds(
            old(pc).x + move_delta(key).0,
            old(pc).y + move_delta(key).1,
        ) && !game.map@[old(pc).x + move_delta(key).0][old(pc).y + move_delta(key).1].blocked
            ==> *final(pc) == (Object {
            x: (old(pc).x + move_delta(key).0) as i32,
            y: (old(pc).y + move_delta(key).1) as i32,
            glyph: old(pc).glyph,
            color: old(pc).color,
        }),
        is_move_key(key) && !(game.map.in_bounds(
            old(pc).x + move_delta(key).0,
            old(pc).y + move_delta(key).1,
        ) && !game.map@[old(pc).x + move_delta(key).0][old(pc).y + move_delta(key).1].blocked)
            ==> *final(pc) == *old(pc),
{
    match key {
        Key::Enter { alt } => {
            if alt {
                Action::ToggleFullscreen
            } else {
                Action::Nothing
            }
        },
        Key::Escape => Action::Exit,
        Key::Up => {
            try_move(pc, 0, -1, game);
            Action::Nothing
        },
        Key::Down => {
            try_move(pc, 0, 1, game);
            Action::Nothing
        },
        Key::Left => {
            try_move(pc, -1, 0, game);
            Action::Nothing
        },
        Key::Right => {
            try_move(pc, 1, 0, game);
            Action::Nothing
        },
        Key::Other => Action::Nothing,
    }
}

} // verus!
