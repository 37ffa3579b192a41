use colza::color::Rgb;
use colza::magnifier::{below_grid, loupe_corner, MagnifierState, PointerInput, LOUPE_PX};
use colza::shot::Screenshot;

type Point = (f32, f32);

/// An image whose pixels hold their own column and row.
fn coordinates(width: u32, height: u32) -> Screenshot {
    let mut data = Vec::new();
    for y in 0..height {
        for x in 0..width {
            data.push(x as u8);
            data.push(y as u8);
            data.push(7);
        }
    }
    Screenshot::from_raw(width, height, data).unwrap()
}

fn still() -> PointerInput<Point> {
    PointerInput {
        mouse_moved: false,
        latest_pos: Some((5.0, 6.0)),
        at_origin: false,
        left: false,
        right: false,
        up: false,
        down: false,
        clicked: false,
        enter: false,
        escape: false,
    }
}

fn moved(p: Point, right: i32, down: i32) -> Point {
    (p.0 + right as f32, p.1 + down as f32)
}

fn locate(p: Point) -> (u32, u32) {
    (p.0 as u32, p.1 as u32)
}

fn magnifier() -> MagnifierState<Point> {
    MagnifierState::new(coordinates(20, 10), (0.0, 0.0))
}

#[test]
fn positions_outside_the_image_are_clamped() {
    let state = magnifier();
    assert_eq!(state.color_at((3, 4)), Rgb::new(3, 4, 7));
    assert_eq!(state.color_at((20, 4)), Rgb::new(19, 4, 7));
    assert_eq!(state.color_at((3, 10)), Rgb::new(3, 9, 7));
    assert_eq!(state.color_at((u32::MAX, u32::MAX)), Rgb::new(19, 9, 7));
}

#[test]
fn the_cursor_follows_the_pointer_only_when_it_moves() {
    let mut state = magnifier();
    assert!(state.live);
    state.cursor_pos = (1.0, 1.0);
    state.handle_input(still(), moved, locate);
    assert_eq!(state.cursor_pos, (1.0, 1.0));
    state.handle_input(PointerInput { mouse_moved: true, ..still() }, moved, locate);
    assert_eq!(state.cursor_pos, (5.0, 6.0));
    state.handle_input(
        PointerInput { mouse_moved: true, latest_pos: None, ..still() },
        moved,
        locate,
    );
    assert_eq!(state.cursor_pos, (5.0, 6.0));
    let mut fresh = magnifier();
    fresh.handle_input(PointerInput { at_origin: true, ..still() }, moved, locate);
    assert_eq!(fresh.cursor_pos, (5.0, 6.0));
}

#[test]
fn arrow_keys_nudge_the_cursor() {
    let mut state = magnifier();
    state.cursor_pos = (5.5, 5.5);
    state.handle_input(PointerInput { left: true, ..still() }, moved, locate);
    assert_eq!(state.cursor_pos, (4.5, 5.5));
    state.handle_input(PointerInput { right: true, down: true, ..still() }, moved, locate);
    assert_eq!(state.cursor_pos, (5.5, 6.5));
    state.handle_input(PointerInput { up: true, ..still() }, moved, locate);
    assert_eq!(state.cursor_pos, (5.5, 5.5));
    state.handle_input(
        PointerInput { left: true, right: true, up: true, down: true, ..still() },
        |_, _, _| panic!("opposite keys cancel out"),
        locate,
    );
    assert_eq!(state.cursor_pos, (5.5, 5.5));
    // A nudge is added to where the pointer has moved to.
    state.handle_input(
        PointerInput { mouse_moved: true, down: true, ..still() },
        moved,
        locate,
    );
    assert_eq!(state.cursor_pos, (5.0, 7.0));
}

#[test]
fn a_click_or_enter_picks_and_escape_cancels() {
    let mut state = magnifier();
    state.cursor_pos = (2.0, 3.0);
    let nothing = state.handle_input(still(), moved, locate);
    assert!(nothing.picked.is_none() && !nothing.cancelled);
    let clicked = state.handle_input(PointerInput { clicked: true, ..still() }, moved, locate);
    assert_eq!(clicked.picked, Some(Rgb::new(2, 3, 7)));
    let entered = state.handle_input(
        PointerInput { enter: true, right: true, ..still() },
        moved,
        locate,
    );
    assert_eq!(entered.picked, Some(Rgb::new(3, 3, 7)));
    assert!(!entered.cancelled);
    let escaped = state.handle_input(PointerInput { escape: true, ..still() }, moved, locate);
    assert!(escaped.picked.is_none() && escaped.cancelled);
}

#[test]
fn at_most_one_of_picked_and_cancelled() {
    let mut state = magnifier();
    let both = state.handle_input(
        PointerInput { clicked: true, escape: true, ..still() },
        moved,
        locate,
    );
    assert!(both.picked.is_some());
    assert!(!both.cancelled);
}

#[test]
fn the_loupe_shows_the_surroundings() {
    let state = magnifier();
    let loupe = state.loupe((10, 5));
    assert_eq!(loupe.cells.len(), 81);
    for row in 0..9usize {
        for column in 0..9usize {
            let x = 10 + column as u8 - 4;
            let y = 5 + row as u8 - 4;
            assert_eq!(loupe.cells[row * LOUPE_PX as usize + column], Rgb::new(x, y, 7));
        }
    }
    assert_eq!(loupe.center, Rgb::new(10, 5, 7));
    assert_eq!(loupe.cells[40], loupe.center);
    assert_eq!(loupe.hex, "#0A0507");
    assert!(!loupe.black_text);
    assert!(!loupe.caption);
}

#[test]
fn the_loupe_repeats_the_edges() {
    let mut state = magnifier();
    state.live = false;
    let corner = state.loupe((0, 0));
    assert_eq!(corner.cells[0], Rgb::new(0, 0, 7));
    assert_eq!(corner.cells[80], Rgb::new(4, 4, 7));
    assert!(corner.caption);
    let other = state.loupe((19, 9));
    assert_eq!(other.cells[80], Rgb::new(19, 9, 7));
    assert_eq!(other.cells[0], Rgb::new(15, 5, 7));
    // The far end of the coordinate range wraps round.
    let far = state.loupe((u32::MAX, 0));
    assert_eq!(far.cells[4 * 9 + 4], Rgb::new(19, 0, 7));
    assert_eq!(far.cells[4 * 9 + 5], Rgb::new(0, 0, 7));
    assert_eq!(far.cells[4 * 9 + 8], Rgb::new(3, 0, 7));
}

#[test]
fn a_newer_frame_replaces_the_image() {
    let mut state = magnifier();
    state.cursor_pos = (1.0, 1.0);
    state.refresh(None);
    assert_eq!(state.screenshot.width(), 20);
    state.refresh(Some(coordinates(2, 2)));
    assert_eq!(state.screenshot.width(), 2);
    assert_eq!(state.cursor_pos, (1.0, 1.0));
}

#[test]
fn a_caption_takes_room_below_the_loupe() {
    assert_eq!(below_grid(true), 30);
    assert_eq!(below_grid(false), 46);
}

#[test]
fn the_loupe_goes_where_it_fits() {
    assert_eq!(loupe_corner(true, true, true), (20, 20));
    assert_eq!(loupe_corner(false, true, true), (-200, 20));
    assert_eq!(loupe_corner(true, false, true), (20, -230));
    assert_eq!(loupe_corner(false, false, false), (-200, -246));
}
