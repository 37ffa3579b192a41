//! The magnifier: which pixel is under the cursor, what the loupe shows of its
//! surroundings, and when a color is picked.
//!
//! The cursor stands at a point of the window, which need not be a whole number
//! of anything. A point is therefore of any type `P`, and what is computed from
//! one (moving it, and the image position under it) is asked of the caller.
use vstd::prelude::*;

use crate::color::Rgb;
use crate::shot::Screenshot;
#[allow(unused_imports)]
use crate::shot::{shot_height, shot_width};

verus! {

/// Pixels on each side of the magnified square. An odd number, so that one of
/// them is in the middle.
pub const LOUPE_PX: u32 = 9;

/// The side of the loupe on the screen, in points.
pub const LOUPE_SIZE: u32 = 180;

/// The side of one magnified pixel, in points.
pub const CELL: u32 = 20;

/// The height of the band with the color's name, in points.
pub const HEX_BAND_HEIGHT: u32 = 28;

/// The height of the caption under a still image, in points.
pub const STILL_CAPTION_HEIGHT: u32 = 14;

/// The distance between the cursor and the loupe, in points.
pub const LOUPE_OFFSET: u32 = 20;

/// The space between the loupe, the band and the caption, in points.
pub const GAP: u32 = 2;

/// The height of all that is drawn below the loupe, in points: the band, and
/// for a still image the caption.
pub fn below_grid(live: bool) -> (res: u32)
    ensures
        res == HEX_BAND_HEIGHT + GAP + if live {
            0
        } else {
            STILL_CAPTION_HEIGHT + GAP
        },
        res == if live {
            30u32
        } else {
            46u32
        },
{
    if live {
        HEX_BAND_HEIGHT + GAP
    } else {
        HEX_BAND_HEIGHT + GAP + STILL_CAPTION_HEIGHT + GAP
    }
}

/// Where the loupe's top left corner is, as seen from the cursor, in points to
/// the right and down. It is below and to the right of the cursor, and goes to
/// the other side of it in a direction in which it, with all that is drawn below
/// it, does not fit on the screen.
pub fn loupe_corner(fits_right: bool, fits_below: bool, live: bool) -> (res: (i32, i32))
    ensures
        fits_right ==> res.0 == LOUPE_OFFSET,
        !fits_right ==> res.0 + LOUPE_SIZE == -LOUPE_OFFSET,
        fits_below ==> res.1 == LOUPE_OFFSET,
        !fits_below && live ==> res.1 + LOUPE_SIZE + GAP + HEX_BAND_HEIGHT == -LOUPE_OFFSET,
        !fits_below && !live ==> res.1 + LOUPE_SIZE + GAP + HEX_BAND_HEIGHT + GAP
            + STILL_CAPTION_HEIGHT == -LOUPE_OFFSET,
        res.0 == if fits_right {
            20i32
        } else {
            -200i32
        },
        res.1 == if fits_below {
            20i32
        } else if live {
            -230i32
        } else {
            -246i32
        },
{
    let right: i32 = if fits_right {
        LOUPE_OFFSET as i32
    } else {
        -((LOUPE_SIZE + LOUPE_OFFSET) as i32)
    };
    let down: i32 = if fits_below {
        LOUPE_OFFSET as i32
    } else {
        -((LOUPE_SIZE + LOUPE_OFFSET + below_grid(live)) as i32)
    };
    (right, down)
}

/// What pointer and keyboard have done since the last frame.
pub struct PointerInput<P> {
    /// The pointer has moved.
    pub mouse_moved: bool,
    /// Where the pointer is, if that is known.
    pub latest_pos: Option<P>,
    /// The magnifier's cursor still is at the origin, where it is put before
    /// the pointer is known.
    pub at_origin: bool,
    /// Arrow keys that were pressed.
    pub left: bool,
    pub right: bool,
    pub up: bool,
    pub down: bool,
    /// The primary button was clicked.
    pub clicked: bool,
    pub enter: bool,
    pub escape: bool,
}

impl<P> PointerInput<P> {
    /// Where the cursor is before the arrow keys move it: at the pointer, where
    /// that has moved or the cursor had no place yet, and else where it was.
    pub open spec fn placed(self, cursor: P) -> P {
        if self.latest_pos is Some && (self.mouse_moved || self.at_origin) {
            self.latest_pos->0
        } else {
            cursor
        }
    }

    /// How far the arrow keys move the cursor, to the right and down. Opposite
    /// keys cancel out.
    pub open spec fn nudge(self) -> (int, int) {
        (
            (if self.right { 1int } else { 0 }) - (if self.left { 1int } else { 0 }),
            (if self.down { 1int } else { 0 }) - (if self.up { 1int } else { 0 }),
        )
    }

    /// Whether the color under the cursor is picked.
    pub open spec fn picks(self) -> bool {
        self.clicked || self.enter
    }
}

/// What the user has decided in one frame. At most one of the two is set: a
/// frame that picks a color does not cancel.
pub struct MagnifierInput {
    pub picked: Option<Rgb>,
    pub cancelled: bool,
}

/// What the loupe shows.
pub struct Loupe {
    /// The magnified pixels, row by row from the top.
    pub cells: Vec<Rgb>,
    /// The color in the middle, which is the one that would be picked.
    pub center: Rgb,
    /// That color as `#RRGGBB`.
    pub hex: String,
    /// Whether the text on that color is black, rather than white.
    pub black_text: bool,
    /// Whether there is a caption that says that the image is a still one.
    pub caption: bool,
}

/// The image coordinate `offset` pixels away from `center`, which the edges of
/// the coordinate range bound on the left and wrap round on the right.
pub open spec fn sample_coordinate(center: u32, offset: int) -> u32 {
    if center + offset < 0 {
        0
    } else if center + offset > u32::MAX {
        (center + offset - u32::MAX - 1) as u32
    } else {
        (center + offset) as u32
    }
}

fn coordinate_near(center: u32, step: u32) -> (res: u32)
    requires
        step < LOUPE_PX,
    ensures
        res == sample_coordinate(center, step - LOUPE_PX / 2),
{
    let half: u32 = LOUPE_PX / 2;
    if step < half && center < half - step {
        0
    } else if step < half {
        center - (half - step)
    } else {
        center.wrapping_add(step - half)
    }
}

/// The magnifier: an image of the screen, and the cursor that is moved over it.
pub struct MagnifierState<P> {
    /// The image. Replacing it between two frames makes the view a live one.
    pub screenshot: Screenshot,
    /// The place of the cursor in the window.
    pub cursor_pos: P,
    /// Whether the image is being replaced as the screen changes.
    pub live: bool,
}

impl<P> MagnifierState<P> {
    /// The color at an image position; that of the nearest pixel, where the
    /// position is outside the image.
    pub open spec fn color_near(self, image_pos: (u32, u32)) -> Rgb {
        let right = shot_width(self.screenshot) - 1;
        let bottom = shot_height(self.screenshot) - 1;
        self.screenshot.at(
            if image_pos.0 < right {
                image_pos.0 as int
            } else {
                right
            },
            if image_pos.1 < bottom {
                image_pos.1 as int
            } else {
                bottom
            },
        )
    }

    /// The color that the loupe shows in one of its cells.
    pub open spec fn cell_color(self, center: (u32, u32), column: int, row: int) -> Rgb {
        self.color_near(
            (
                sample_coordinate(center.0, column - LOUPE_PX / 2),
                sample_coordinate(center.1, row - LOUPE_PX / 2),
            ),
        )
    }

    /// A magnifier over a live image, with the cursor at `origin`.
    pub fn new(screenshot: Screenshot, origin: P) -> (res: Self)
        ensures
            res.screenshot == screenshot,
            res.cursor_pos == origin,
            res.live,
    {
        MagnifierState { screenshot, cursor_pos: origin, live: true }
    }

    /// Shows a newer image, if there is one.
    pub fn refresh(&mut self, frame: Option<Screenshot>)
        ensures
            final(self).screenshot == match frame {
                Some(shot) => shot,
                None => old(self).screenshot,
            },
            final(self).cursor_pos == old(self).cursor_pos,
            final(self).live == old(self).live,
    {
        if let Some(shot) = frame {
            self.screenshot = shot;
        }
    }

    /// The color at an image position; that of the nearest pixel, where the
    /// position is outside the image.
    pub fn color_at(&self, image_pos: (u32, u32)) -> (res: Rgb)
        requires
            self.screenshot.has_pixels(),
        ensures
            res == self.color_near(image_pos),
    {
        let right: u32 = self.screenshot.width() - 1;
        let bottom: u32 = self.screenshot.height() - 1;
        let x: u32 = if image_pos.0 < right {
            image_pos.0
        } else {
            right
        };
        let y: u32 = if image_pos.1 < bottom {
            image_pos.1
        } else {
            bottom
        };
        self.screenshot.pixel(x, y)
    }

    /// Handles the input of one frame: places the cursor, moves it by the arrow
    /// keys, and says whether the user picked a color or cancelled.
    ///
    /// `moved` gives the point that is so far to the right of and below another;
    /// `locate` gives the image position under a point.
    pub fn handle_input<M: FnOnce(P, i32, i32) -> P, L: FnOnce(P) -> (u32, u32)>(
        &mut self,
        input: PointerInput<P>,
        moved: M,
        locate: L,
    ) -> (res: MagnifierInput) where P: Copy
        requires
            input.picks() ==> old(self).screenshot.has_pixels(),
            forall|p: P, right: i32, down: i32| call_requires(moved, (p, right, down)),
            forall|p: P| call_requires(locate, (p,)),
        ensures
            final(self).screenshot == old(self).screenshot,
            final(self).live == old(self).live,
            input.nudge() == (0int, 0int) ==> final(self).cursor_pos == input.placed(
                old(self).cursor_pos,
            ),
            input.nudge() != (0int, 0int) ==> call_ensures(
                moved,
                (
                    input.placed(old(self).cursor_pos),
                    input.nudge().0 as i32,
                    input.nudge().1 as i32,
                ),
                final(self).cursor_pos,
            ),
            res.picked is Some <==> input.picks(),
            res.picked matches Some(color) ==> exists|pos: (u32, u32)| #[trigger]
                call_ensures(locate, (final(self).cursor_pos,), pos) && color == old(
                    self,
                ).color_near(pos),
            res.cancelled == (input.escape && !input.picks()),
            !(res.picked is Some && res.cancelled),
    {
        if input.mouse_moved || input.at_origin {
            if let Some(pos) = input.latest_pos {
                self.cursor_pos = pos;
            }
        }
        let mut right: i32 = 0;
        let mut down: i32 = 0;
        if input.left {
            right = right - 1;
        }
        if input.right {
            right = right + 1;
        }
        if input.up {
            down = down - 1;
        }
        if input.down {
            down = down + 1;
        }
        if right != 0 || down != 0 {
            self.cursor_pos = moved(self.cursor_pos, right, down);
        }
        let picks: bool = input.clicked || input.enter;
        let picked = if picks {
            let pos = locate(self.cursor_pos);
            Some(self.color_at(pos))
        } else {
            None
        };
        MagnifierInput { picked, cancelled: input.escape && !picks }
    }

    /// What the loupe shows round the image position under the cursor.
    pub fn loupe(&self, center: (u32, u32)) -> (res: Loupe)
        requires
            self.screenshot.has_pixels(),
        ensures
            res.cells@.len() == LOUPE_PX * LOUPE_PX,
            res.cells@.len() == 81,
            forall|column: int, row: int|
                0 <= column < LOUPE_PX && 0 <= row < LOUPE_PX ==> res.cells@[row * LOUPE_PX
                    + column] == #[trigger] self.cell_color(center, column, row),
            res.center == self.color_near(center),
            res.cells@[(LOUPE_PX * LOUPE_PX) / 2] == res.center,
            res.hex@ == res.center.hex_text(),
            res.black_text == (299 * res.center.r + 587 * res.center.g + 114 * res.center.b
                > 128_000),
            res.caption == !self.live,
    {
        let mut cells: Vec<Rgb> = Vec::new();
        let mut row: u32 = 0;
        while row < LOUPE_PX
            invariant
                row <= LOUPE_PX,
                self.screenshot.has_pixels(),
                cells@.len() == row * LOUPE_PX,
                forall|c: int, r: int|
                    0 <= c < LOUPE_PX && 0 <= r < row ==> cells@[r * LOUPE_PX + c] == #[trigger]
                        self.cell_color(center, c, r),
            decreases LOUPE_PX - row,
        {
            let mut column: u32 = 0;
            while column < LOUPE_PX
                invariant
                    row < LOUPE_PX,
                    column <= LOUPE_PX,
                    self.screenshot.has_pixels(),
                    cells@.len() == row * LOUPE_PX + column,
                    forall|c: int, r: int|
                        0 <= c < LOUPE_PX && 0 <= r && (r < row || r == row && c < column)
                            ==> cells@[r * LOUPE_PX + c] == #[trigger] self.cell_color(
                            center,
                            c,
                            r,
                        ),
                decreases LOUPE_PX - column,
            {
                let color = self.color_at(
                    (coordinate_near(center.0, column), coordinate_near(center.1, row)),
                );
                assert(color == self.cell_color(center, column as int, row as int));
                cells.push(color);
                column = column + 1;
            }
            row = row + 1;
        }
        let color = self.color_at(center);
        assert(self.cell_color(center, 4, 4) == color);
        Loupe {
            cells,
            center: color,
            hex: color.to_hex(),
            black_text: color.prefers_black_text(),
            caption: !self.live,
        }
    }
}

/// The loupe shows the nine by nine pixels round the one in its middle, the right
/// way round: four to the left of it, four to the right, four above and four
/// below. Beyond an edge of the image it repeats the pixels of that edge.
pub proof fn law_the_loupe_shows_the_surroundings<P>(
    state: MagnifierState<P>,
    center: (u32, u32),
    column: int,
    row: int,
    x: int,
    y: int,
)
    requires
        state.screenshot.has_pixels(),
        0 <= column < 9,
        0 <= row < 9,
        center.0 + column - 4 <= u32::MAX,
        center.1 + row - 4 <= u32::MAX,
        0 <= x < shot_width(state.screenshot),
        0 <= y < shot_height(state.screenshot),
        x == center.0 + column - 4 || x == 0 && center.0 + column - 4 < 0 || x == shot_width(
            state.screenshot,
        ) - 1 && center.0 + column - 4 > x,
        y == center.1 + row - 4 || y == 0 && center.1 + row - 4 < 0 || y == shot_height(
            state.screenshot,
        ) - 1 && center.1 + row - 4 > y,
    ensures
        state.cell_color(center, column, row) == state.screenshot.at(x, y),
{
}

/// Moving the middle of the loupe by one pixel moves what it shows by one cell.
pub proof fn law_the_loupe_moves_with_the_cursor<P>(
    state: MagnifierState<P>,
    center: (u32, u32),
    column: int,
    row: int,
)
    requires
        state.screenshot.has_pixels(),
        0 <= column < 8,
        0 <= row < 8,
        center.0 < u32::MAX,
        center.1 < u32::MAX,
    ensures
        state.cell_color(((center.0 + 1) as u32, center.1), column, row) == state.cell_color(
            center,
            column + 1,
            row,
        ),
        state.cell_color((center.0, (center.1 + 1) as u32), column, row) == state.cell_color(
            center,
            column,
            row + 1,
        ),
{
}

/// Where a cell lies past the largest coordinate there is, counting begins again
/// at the image's first column or row.
pub proof fn law_coordinates_wrap(center: u32, offset: int)
    requires
        -4 <= offset <= 4,
    ensures
        center + offset > u32::MAX ==> sample_coordinate(center, offset) == center + offset
            - 0x1_0000_0000,
        0 <= center + offset <= u32::MAX ==> sample_coordinate(center, offset) == center + offset,
        center + offset < 0 ==> sample_coordinate(center, offset) == 0,
{
}

/// An arrow key moves the cursor by one in its own direction, whatever else is
/// pressed, and without one it is not moved.
pub proof fn law_arrow_keys<P>(input: PointerInput<P>)
    ensures
        ({
            let pressed = PointerInput { right: true, ..input };
            let without = PointerInput { right: false, ..input };
            pressed.nudge() == (without.nudge().0 + 1, without.nudge().1)
        }),
        ({
            let pressed = PointerInput { left: true, ..input };
            let without = PointerInput { left: false, ..input };
            pressed.nudge() == (without.nudge().0 - 1, without.nudge().1)
        }),
        ({
            let pressed = PointerInput { down: true, ..input };
            let without = PointerInput { down: false, ..input };
            pressed.nudge() == (without.nudge().0, without.nudge().1 + 1)
        }),
        ({
            let pressed = PointerInput { up: true, ..input };
            let without = PointerInput { up: false, ..input };
            pressed.nudge() == (without.nudge().0, without.nudge().1 - 1)
        }),
        !input.left && !input.right && !input.up && !input.down ==> input.nudge() == (0int, 0int),
{
}

/// The cursor goes to the pointer where that has moved, or where the cursor had no
/// place yet; a pointer that rests, or that is nowhere, leaves it where it is. A
/// click or the Enter key picks, and nothing else does.
pub proof fn law_the_cursor_follows_the_pointer<P>(input: PointerInput<P>, cursor: P, pointer: P)
    ensures
        input.latest_pos == Some(pointer) && input.mouse_moved ==> input.placed(cursor) == pointer,
        input.latest_pos == Some(pointer) && input.at_origin ==> input.placed(cursor) == pointer,
        !input.mouse_moved && !input.at_origin ==> input.placed(cursor) == cursor,
        input.latest_pos is None ==> input.placed(cursor) == cursor,
        input.picks() <==> input.clicked || input.enter,
{
}

/// Inside the image, the magnifier reads the very pixel it is asked for; beyond
/// an edge, that of the edge.
pub proof fn law_positions_are_clamped<P>(state: MagnifierState<P>, x: u32, y: u32)
    requires
        state.screenshot.has_pixels(),
    ensures
        x < shot_width(state.screenshot) && y < shot_height(state.screenshot)
            ==> state.color_near((x, y)) == state.screenshot.at(x as int, y as int),
        x >= shot_width(state.screenshot) ==> state.color_near((x, y)) == state.color_near(
            ((shot_width(state.screenshot) - 1) as u32, y),
        ),
        y >= shot_height(state.screenshot) ==> state.color_near((x, y)) == state.color_near(
            (x, (shot_height(state.screenshot) - 1) as u32),
        ),
{
}

} // verus!
