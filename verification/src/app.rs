//! The window's state: two color fields, the contrast ratio between them, and
//! how far picking a color from the screen has come.
//!
//! The ratio is of any type `R`, and whoever changes a color brings along the
//! function that rates two colors. `Rx` is where a capture that is being opened
//! will arrive, `P` a point of the window, and `C` a running capture.
use vstd::prelude::*;

use crate::color::Rgb;
use crate::magnifier::{MagnifierInput, MagnifierState};
use crate::row::{ColorRowState, FieldEvents};
#[allow(unused_imports)]
use crate::row::{
    color_in_text, law_a_set_color_is_shown, law_a_typed_color_is_taken,
    law_other_frames_keep_the_color, RowView,
};
use crate::screencast::ScreenSource;
use crate::shot::Screenshot;

verus! {

/// How many milliseconds pass before an empty inbox is looked into again.
pub const POLL_MILLIS: u32 = 16;

/// One of the two color fields.
#[derive(Debug, Clone, Copy, PartialEq, Eq, Structural)]
pub enum Target {
    Fg,
    Bg,
}

/// What the program is doing besides showing its window.
pub enum Mode<Rx, P, C> {
    /// Nothing.
    Normal,
    /// A capture is being opened, to pick a color for a field.
    Capturing(Target, Rx),
    /// The magnifier is open, to pick a color for a field.
    Magnifying(Target, Box<MagnifierState<P>>, ScreenSource<C>),
}

/// What came of looking for a capture that is being opened.
pub enum CapturePoll<C, E> {
    /// It is open, and this is its first frame.
    Opened(ScreenSource<C>, Screenshot),
    /// It could not be opened.
    Failed(E),
    /// It is not there yet.
    Empty,
    /// It will never come.
    Disconnected,
}

/// What to do after looking for a capture.
pub enum PollAction<E> {
    /// Draw the next frame at once.
    Repaint,
    /// Look again after [`POLL_MILLIS`].
    LookAgain,
    /// Report this error.
    Report(E),
    /// Report that the capture ended without a result.
    ReportLost,
}

/// What the fields have asked for in one pass over the window.
#[derive(Debug, Clone, Copy, PartialEq, Eq, Structural)]
pub struct WindowPass {
    /// A color has changed since the ratio was computed.
    pub contrast_dirty: bool,
    /// The field that a color is to be picked for.
    pub pick_target: Option<Target>,
}

impl WindowPass {
    /// Nothing has been asked for yet.
    pub fn new() -> (res: Self)
        ensures
            !res.contrast_dirty,
            res.pick_target is None,
    {
        WindowPass { contrast_dirty: false, pick_target: None }
    }
}

/// The window's state.
pub struct App<R, Rx, P, C> {
    pub mode: Mode<Rx, P, C>,
    pub fg: ColorRowState,
    pub bg: ColorRowState,
    /// The contrast ratio between the two colors.
    pub ratio: R,
}

impl<R, Rx, P, C> App<R, Rx, P, C> {
    /// One of the two fields.
    pub open spec fn row(self, target: Target) -> ColorRowState {
        match target {
            Target::Fg => self.fg,
            Target::Bg => self.bg,
        }
    }

    /// The other one.
    pub open spec fn other_row(self, target: Target) -> ColorRowState {
        match target {
            Target::Fg => self.bg,
            Target::Bg => self.fg,
        }
    }

    /// Whether the ratio is that of the two colors.
    pub open spec fn rated<F: FnOnce(Rgb, Rgb) -> R>(self, contrast: F) -> bool {
        call_ensures(contrast, (self.fg.color, self.bg.color), self.ratio)
    }

    /// Whether each field would go back to the text of its own color.
    pub open spec fn consistent(self) -> bool {
        self.fg@.consistent() && self.bg@.consistent()
    }

    /// Whether the ratio is that of the two colors, or is known not to be.
    pub open spec fn up_to_date<F: FnOnce(Rgb, Rgb) -> R>(
        self,
        pass: WindowPass,
        contrast: F,
    ) -> bool {
        pass.contrast_dirty || self.rated(contrast)
    }

    /// What one frame of a field makes of the state and of a pass: the field
    /// handles it, a color it takes makes the ratio out of date, and a press of
    /// its pick button counts unless a color is being picked already.
    pub open spec fn becomes_by_row_frame(
        self,
        after: Self,
        target: Target,
        field: FieldEvents,
        pass: WindowPass,
        pass_after: WindowPass,
    ) -> bool {
        &&& after.row(target)@ == self.row(target)@.after(field)
        &&& after.other_row(target) == self.other_row(target)
        &&& after.mode == self.mode
        &&& after.ratio == self.ratio
        &&& pass_after.contrast_dirty == (pass.contrast_dirty || self.row(target)@.takes_color(
            field,
        ))
        &&& pass_after.pick_target == if field.pick_pressed && self.mode is Normal {
            Some(target)
        } else {
            pass.pick_target
        }
    }

    /// The state at the start: black on white.
    pub fn new<F: FnOnce(Rgb, Rgb) -> R>(contrast: F) -> (res: Self)
        requires
            forall|a: Rgb, b: Rgb| call_requires(contrast, (a, b)),
        ensures
            res.mode is Normal,
            res.fg@.label == "Foreground"@,
            res.bg@.label == "Background"@,
            res.fg@ == res.fg@.with_color(Rgb { r: 0, g: 0, b: 0 }),
            res.bg@ == res.bg@.with_color(Rgb { r: 0xff, g: 0xff, b: 0xff }),
            res.rated(contrast),
            res.consistent(),
    {
        let fg = ColorRowState::new("Foreground", Rgb::new(0x00, 0x00, 0x00));
        let bg = ColorRowState::new("Background", Rgb::new(0xff, 0xff, 0xff));
        let ratio = contrast(fg.color, bg.color);
        App { mode: Mode::Normal, fg, bg, ratio }
    }

    /// Computes the ratio anew.
    pub fn update_contrast<F: FnOnce(Rgb, Rgb) -> R>(&mut self, contrast: F)
        requires
            forall|a: Rgb, b: Rgb| call_requires(contrast, (a, b)),
        ensures
            final(self).rated(contrast),
            final(self).mode == old(self).mode,
            final(self).fg == old(self).fg,
            final(self).bg == old(self).bg,
    {
        self.ratio = contrast(self.fg.color, self.bg.color);
    }

    /// Exchanges the two colors. Both fields then show theirs.
    pub fn swap<F: FnOnce(Rgb, Rgb) -> R>(&mut self, contrast: F)
        requires
            forall|a: Rgb, b: Rgb| call_requires(contrast, (a, b)),
        ensures
            final(self).fg@ == old(self).fg@.with_color(old(self).bg.color),
            final(self).bg@ == old(self).bg@.with_color(old(self).fg.color),
            final(self).mode == old(self).mode,
            final(self).rated(contrast),
            final(self).consistent(),
    {
        let fg_color = self.fg.color;
        self.fg.set_color(self.bg.color);
        self.bg.set_color(fg_color);
        self.update_contrast(contrast);
    }

    /// Begins to pick a color for a field: a capture is being opened, and will
    /// arrive at `inbox`.
    pub fn start_picking(&mut self, target: Target, inbox: Rx)
        ensures
            final(self).mode == Mode::<Rx, P, C>::Capturing(target, inbox),
            final(self).fg == old(self).fg,
            final(self).bg == old(self).bg,
            final(self).ratio == old(self).ratio,
    {
        self.mode = Mode::Capturing(target, inbox);
    }

    /// One of the two fields.
    pub fn row_mut(&mut self, target: Target) -> (res: &mut ColorRowState)
        ensures
            *res == old(self).row(target),
            final(self).row(target) == *final(res),
            final(self).other_row(target) == old(self).other_row(target),
            final(self).mode == old(self).mode,
            final(self).ratio == old(self).ratio,
    {
        match target {
            Target::Fg => &mut self.fg,
            Target::Bg => &mut self.bg,
        }
    }

    /// Whether a color is being picked, which disables the pick buttons.
    pub fn picking(&self) -> (res: bool)
        ensures
            res == !(self.mode is Normal),
    {
        match self.mode {
            Mode::Normal => false,
            _ => true,
        }
    }

    /// Handles one frame of a field. Notes in `pass` what follows from it. While
    /// a color is being picked, no field can ask for another.
    pub fn row_frame(&mut self, target: Target, field: FieldEvents, pass: &mut WindowPass)
        ensures
            old(self).becomes_by_row_frame(*final(self), target, field, *old(pass), *final(pass)),
            old(self).consistent() ==> final(self).consistent(),
    {
        let picking: bool = self.picking();
        let response = match target {
            Target::Fg => self.fg.respond(field, picking),
            Target::Bg => self.bg.respond(field, picking),
        };
        if response.changed {
            pass.contrast_dirty = true;
        }
        if response.pick {
            pass.pick_target = Some(target);
        }
    }

    /// Ends a pass over the window: brings the ratio up to date, and says which
    /// field a color is to be picked for.
    pub fn finish_window<F: FnOnce(Rgb, Rgb) -> R>(
        &mut self,
        pass: WindowPass,
        contrast: F,
    ) -> (res: Option<Target>)
        requires
            forall|a: Rgb, b: Rgb| call_requires(contrast, (a, b)),
        ensures
            res == pass.pick_target,
            final(self).fg == old(self).fg,
            final(self).bg == old(self).bg,
            final(self).mode == old(self).mode,
            pass.contrast_dirty ==> final(self).rated(contrast),
            !pass.contrast_dirty ==> final(self).ratio == old(self).ratio,
            old(self).up_to_date(pass, contrast) ==> final(self).rated(contrast),
    {
        if pass.contrast_dirty {
            self.update_contrast(contrast);
        }
        pass.pick_target
    }

    /// Handles what came of looking for the capture that is being opened. Once
    /// it is there, the magnifier opens, with its cursor at `origin`.
    pub fn capture_polled<E>(&mut self, poll: CapturePoll<C, E>, origin: P) -> (res: PollAction<E>)
        requires
            old(self).mode is Capturing,
        ensures
            match poll {
                CapturePoll::Opened(source, first) => {
                    &&& res is Repaint
                    &&& final(self).mode == Mode::<Rx, P, C>::Magnifying(
                        old(self).mode->Capturing_0,
                        Box::new(
                            MagnifierState {
                                screenshot: first,
                                cursor_pos: origin,
                                live: source is Live,
                            },
                        ),
                        source,
                    )
                },
                CapturePoll::Failed(err) => res == PollAction::Report(err)
                    && final(self).mode is Normal,
                CapturePoll::Empty => res is LookAgain && final(self).mode == old(self).mode,
                CapturePoll::Disconnected => res is ReportLost && final(self).mode is Normal,
            },
            final(self).fg == old(self).fg,
            final(self).bg == old(self).bg,
            final(self).ratio == old(self).ratio,
    {
        match poll {
            CapturePoll::Opened(source, first) => {
                let target: Target = match self.mode {
                    Mode::Capturing(target, _) => target,
                    _ => Target::Fg,
                };
                let mut state = MagnifierState::new(first, origin);
                state.live = source.is_live();
                self.mode = Mode::Magnifying(target, Box::new(state), source);
                PollAction::Repaint
            },
            CapturePoll::Failed(err) => {
                self.mode = Mode::Normal;
                PollAction::Report(err)
            },
            CapturePoll::Empty => PollAction::LookAgain,
            CapturePoll::Disconnected => {
                self.mode = Mode::Normal;
                PollAction::ReportLost
            },
        }
    }

    /// Ends a frame of the magnifier: a color that was picked goes to the field
    /// it was picked for. Says whether the magnifier closes, which picking,
    /// cancelling and a request to close its window lead to.
    pub fn finish_magnifier<F: FnOnce(Rgb, Rgb) -> R>(
        &mut self,
        input: MagnifierInput,
        close_requested: bool,
        contrast: F,
    ) -> (close: bool)
        requires
            old(self).mode is Magnifying,
            forall|a: Rgb, b: Rgb| call_requires(contrast, (a, b)),
        ensures
            close == (input.picked is Some || input.cancelled || close_requested),
            close ==> final(self).mode is Normal,
            !close ==> final(self).mode == old(self).mode,
            match input.picked {
                Some(color) => {
                    let target = old(self).mode->Magnifying_0;
                    &&& final(self).row(target)@ == old(self).row(target)@.with_color(color)
                    &&& final(self).other_row(target) == old(self).other_row(target)
                    &&& final(self).rated(contrast)
                },
                None => {
                    &&& final(self).fg == old(self).fg
                    &&& final(self).bg == old(self).bg
                    &&& final(self).ratio == old(self).ratio
                },
            },
            old(self).rated(contrast) ==> final(self).rated(contrast),
            old(self).consistent() ==> final(self).consistent(),
    {
        let target: Target = match self.mode {
            Mode::Magnifying(target, _, _) => target,
            _ => Target::Fg,
        };
        let close: bool = input.picked.is_some() || input.cancelled || close_requested;
        if let Some(color) = input.picked {
            match target {
                Target::Fg => self.fg.set_color(color),
                Target::Bg => self.bg.set_color(color),
            }
            self.update_contrast(contrast);
        }
        if close {
            self.mode = Mode::Normal;
        }
        close
    }
}

/// A field's frame never leaves the ratio behind unnoticed: it is that of the
/// two colors, or the pass knows that it is not.
pub proof fn law_ratio_is_kept_up_to_date<R, Rx, P, C, F: FnOnce(Rgb, Rgb) -> R>(
    before: App<R, Rx, P, C>,
    after: App<R, Rx, P, C>,
    target: Target,
    field: FieldEvents,
    pass: WindowPass,
    pass_after: WindowPass,
    contrast: F,
)
    requires
        before.up_to_date(pass, contrast),
        before.becomes_by_row_frame(after, target, field, pass, pass_after),
    ensures
        after.up_to_date(pass_after, contrast),
{
    assert(after.row(target)@.color == after.row(target).color);
    assert(before.row(target)@.color == before.row(target).color);
}

/// While a color is being picked, nothing that happens to a field starts another
/// pick.
pub proof fn law_one_pick_at_a_time<R, Rx, P, C>(
    before: App<R, Rx, P, C>,
    after: App<R, Rx, P, C>,
    target: Target,
    field: FieldEvents,
    pass: WindowPass,
    pass_after: WindowPass,
)
    requires
        !(before.mode is Normal),
        before.becomes_by_row_frame(after, target, field, pass, pass_after),
    ensures
        pass_after.pick_target == pass.pick_target,
        after.mode == before.mode,
{
}

/// Exchanging the colors of two fields twice leaves each with its own color, and
/// showing it.
pub proof fn law_swapping_twice_is_harmless(fg: RowView, bg: RowView)
    ensures
        fg.with_color(bg.color).with_color(bg.with_color(fg.color).color) == fg.with_color(fg.color),
        bg.with_color(fg.color).with_color(fg.with_color(bg.color).color) == bg.with_color(bg.color),
        fg.consistent() && fg.text == fg.last_valid ==> fg.with_color(fg.color) == fg,
{
}

/// A color that is typed into a field becomes the color of that field, and of no
/// other, and makes the ratio one to compute anew; any other frame keeps both
/// colors and asks for nothing new of the ratio.
pub proof fn law_a_field_changes_its_own_color<R, Rx, P, C>(
    before: App<R, Rx, P, C>,
    after: App<R, Rx, P, C>,
    target: Target,
    field: FieldEvents,
    pass: WindowPass,
    pass_after: WindowPass,
)
    requires
        before.becomes_by_row_frame(after, target, field, pass, pass_after),
    ensures
        target == Target::Fg ==> after.bg == before.bg,
        target == Target::Bg ==> after.fg == before.fg,
        after.ratio == before.ratio,
        ({
            let read = color_in_text(if target == Target::Fg {
                before.fg.hex_text@
            } else {
                before.bg.hex_text@
            });
            let was = if target == Target::Fg {
                before.fg.color
            } else {
                before.bg.color
            };
            let is_now = if target == Target::Fg {
                after.fg.color
            } else {
                after.bg.color
            };
            &&& field.changed && read is Some ==> is_now == read->0 && pass_after.contrast_dirty
            &&& !field.changed || read is None ==> is_now == was && pass_after.contrast_dirty
                == pass.contrast_dirty
        }),
{
    let row = before.row(target)@;
    assert(after.row(target)@.color == after.row(target).color);
    if field.changed && color_in_text(row.text) is Some {
        law_a_typed_color_is_taken(row, color_in_text(row.text)->0, field);
    } else {
        law_other_frames_keep_the_color(row, field);
    }
}

/// A press of a field's pick button, while no color is being picked, asks for a
/// color for that field; the last one that is pressed in a pass counts.
pub proof fn law_a_pick_is_for_its_own_field<R, Rx, P, C>(
    before: App<R, Rx, P, C>,
    after: App<R, Rx, P, C>,
    target: Target,
    field: FieldEvents,
    pass: WindowPass,
    pass_after: WindowPass,
)
    requires
        before.becomes_by_row_frame(after, target, field, pass, pass_after),
    ensures
        field.pick_pressed && before.mode is Normal ==> pass_after.pick_target == Some(target),
        !field.pick_pressed ==> pass_after.pick_target == pass.pick_target,
        after.mode == before.mode,
{
}

/// Each of the two targets stands for its own field, and the other for the other;
/// the ratio is rated where it is what rating the first field's color against the
/// second's has given, and is up to date where it is that or is known not to be.
pub proof fn law_targets_and_ratio<R, Rx, P, C, F: FnOnce(Rgb, Rgb) -> R>(
    app: App<R, Rx, P, C>,
    pass: WindowPass,
    contrast: F,
)
    ensures
        app.row(Target::Fg) == app.fg && app.other_row(Target::Fg) == app.bg,
        app.row(Target::Bg) == app.bg && app.other_row(Target::Bg) == app.fg,
        app.rated(contrast) <==> call_ensures(contrast, (app.fg.color, app.bg.color), app.ratio),
        app.up_to_date(pass, contrast) && !pass.contrast_dirty ==> call_ensures(
            contrast,
            (app.fg.color, app.bg.color),
            app.ratio,
        ),
        app.consistent() <==> app.fg@.last_valid == app.fg.color.hex_text() && app.bg@.last_valid
            == app.bg.color.hex_text(),
{
}

/// Exchanging the colors of two fields gives each the color of the other, in all
/// three channels, and each shows it.
pub proof fn law_swapping_exchanges_the_colors(fg: RowView, bg: RowView)
    ensures
        fg.with_color(bg.color).color == bg.color,
        bg.with_color(fg.color).color == fg.color,
        color_in_text(fg.with_color(bg.color).text) == Some(bg.color),
        color_in_text(bg.with_color(fg.color).text) == Some(fg.color),
        fg.with_color(bg.color).label == fg.label,
        bg.with_color(fg.color).label == bg.label,
{
    law_a_set_color_is_shown(fg, bg.color);
    law_a_set_color_is_shown(bg, fg.color);
}

} // verus!
