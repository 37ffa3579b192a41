use colza::app::{App, CapturePoll, Mode, PollAction, Target, WindowPass, POLL_MILLIS};
use colza::color::{wcag_level, Rgb, WcagLevel};
use colza::criteria::shown_criteria;
use colza::magnifier::MagnifierInput;
use colza::row::FieldEvents;
use colza::screencast::ScreenSource;
use colza::shot::Screenshot;

type Window = App<u32, &'static str, (f32, f32), u8>;

/// A stand-in for a contrast ratio.
fn contrast(a: Rgb, b: Rgb) -> u32 {
    a.r as u32 * 1000 + b.r as u32
}

fn window() -> Window {
    App::new(contrast)
}

fn shot() -> Screenshot {
    Screenshot::from_raw(1, 1, vec![1, 2, 3]).unwrap()
}

fn edited() -> FieldEvents {
    FieldEvents { changed: true, lost_focus: false, pick_pressed: false }
}

fn pick() -> FieldEvents {
    FieldEvents { changed: false, lost_focus: false, pick_pressed: true }
}

fn magnifying(source: ScreenSource<u8>) -> Window {
    let mut app = window();
    app.start_picking(Target::Bg, "inbox");
    let poll: CapturePoll<u8, &str> = CapturePoll::Opened(source, shot());
    assert!(matches!(app.capture_polled(poll, (0.0, 0.0)), PollAction::Repaint));
    app
}

#[test]
fn the_window_starts_black_on_white() {
    let app = window();
    assert!(matches!(app.mode, Mode::Normal));
    assert!(!app.picking());
    assert_eq!((app.fg.label, app.bg.label), ("Foreground", "Background"));
    assert_eq!(app.fg.hex_text, "#000000");
    assert_eq!(app.bg.hex_text, "#FFFFFF");
    assert_eq!(app.ratio, 255);
}

#[test]
fn swapping_exchanges_the_colors() {
    let mut app = window();
    app.fg.hex_text = String::from("typing");
    app.swap(contrast);
    assert_eq!(app.fg.color, Rgb::new(255, 255, 255));
    assert_eq!(app.fg.hex_text, "#FFFFFF");
    assert_eq!(app.bg.hex_text, "#000000");
    assert_eq!(app.ratio, 255_000);
    app.swap(contrast);
    assert_eq!(app.fg.hex_text, "#000000");
    assert_eq!(app.ratio, 255);
}

#[test]
fn a_typed_color_brings_the_ratio_up_to_date() {
    let mut app = window();
    let mut pass = WindowPass::new();
    app.fg.hex_text = String::from("#07");
    app.row_frame(Target::Fg, edited(), &mut pass);
    assert!(!pass.contrast_dirty);
    app.fg.hex_text = String::from("#070000");
    app.row_frame(Target::Fg, edited(), &mut pass);
    assert!(pass.contrast_dirty);
    assert_eq!(app.ratio, 255);
    assert_eq!(app.finish_window(pass, contrast), None);
    assert_eq!(app.ratio, 7255);
    let clean = WindowPass::new();
    app.finish_window(clean, |_, _| panic!("nothing has changed"));
    app.update_contrast(contrast);
    assert_eq!(app.ratio, 7255);
}

#[test]
fn no_second_pick_while_one_is_running() {
    let mut app = window();
    let mut pass = WindowPass::new();
    app.row_frame(Target::Fg, pick(), &mut pass);
    app.row_frame(Target::Bg, pick(), &mut pass);
    let target = app.finish_window(pass, contrast);
    assert_eq!(target, Some(Target::Bg));
    app.start_picking(Target::Bg, "inbox");
    assert!(app.picking());
    let mut next = WindowPass::new();
    app.row_frame(Target::Fg, pick(), &mut next);
    assert_eq!(app.finish_window(next, contrast), None);
}

#[test]
fn a_capture_is_waited_for() {
    let mut app = window();
    app.start_picking(Target::Fg, "inbox");
    let empty: CapturePoll<u8, &str> = CapturePoll::Empty;
    assert!(matches!(app.capture_polled(empty, (0.0, 0.0)), PollAction::LookAgain));
    assert!(matches!(app.mode, Mode::Capturing(Target::Fg, "inbox")));
    assert_eq!(POLL_MILLIS, 16);
    let failed: CapturePoll<u8, &str> = CapturePoll::Failed("denied");
    assert!(matches!(app.capture_polled(failed, (0.0, 0.0)), PollAction::Report("denied")));
    assert!(matches!(app.mode, Mode::Normal));
    app.start_picking(Target::Fg, "inbox");
    let lost: CapturePoll<u8, &str> = CapturePoll::Disconnected;
    assert!(matches!(app.capture_polled(lost, (0.0, 0.0)), PollAction::ReportLost));
    assert!(matches!(app.mode, Mode::Normal));
}

#[test]
fn an_open_capture_opens_the_magnifier() {
    for (source, live) in [(ScreenSource::Live(3), true), (ScreenSource::Still, false)] {
        let app = magnifying(source);
        let Mode::Magnifying(target, state, source) = &app.mode else {
            panic!("no magnifier");
        };
        assert_eq!(*target, Target::Bg);
        assert_eq!(state.live, live);
        assert_eq!(source.is_live(), live);
        assert_eq!(state.cursor_pos, (0.0, 0.0));
        assert_eq!(state.screenshot.pixel(0, 0), Rgb::new(1, 2, 3));
    }
}

#[test]
fn a_picked_color_goes_to_its_field() {
    let mut app = magnifying(ScreenSource::Still);
    let picked = MagnifierInput { picked: Some(Rgb::new(9, 8, 7)), cancelled: false };
    assert!(app.finish_magnifier(picked, false, contrast));
    assert!(matches!(app.mode, Mode::Normal));
    assert_eq!(app.bg.color, Rgb::new(9, 8, 7));
    assert_eq!(app.bg.hex_text, "#090807");
    assert_eq!(app.fg.color, Rgb::new(0, 0, 0));
    assert_eq!(app.ratio, 9);
}

#[test]
fn the_magnifier_closes_when_asked_to() {
    let nothing = || MagnifierInput { picked: None, cancelled: false };
    let mut open = magnifying(ScreenSource::Live(1));
    assert!(!open.finish_magnifier(nothing(), false, contrast));
    assert!(matches!(open.mode, Mode::Magnifying(..)));
    assert!(open.finish_magnifier(nothing(), true, contrast));
    assert!(matches!(open.mode, Mode::Normal));
    let mut cancelled = magnifying(ScreenSource::Live(1));
    let cancel = MagnifierInput { picked: None, cancelled: true };
    assert!(cancelled.finish_magnifier(cancel, false, contrast));
    assert_eq!(cancelled.bg.color, Rgb::new(255, 255, 255));
    assert_eq!(cancelled.ratio, 255);
}

#[test]
fn a_field_can_be_reached_by_its_target() {
    let mut app = window();
    app.row_mut(Target::Fg).set_color(Rgb::new(1, 1, 1));
    app.row_mut(Target::Bg).set_color(Rgb::new(2, 2, 2));
    assert_eq!(app.fg.color, Rgb::new(1, 1, 1));
    assert_eq!(app.bg.color, Rgb::new(2, 2, 2));
}

#[test]
fn the_criteria_and_their_verdicts() {
    let groups = shown_criteria();
    let rows: Vec<(&str, &str, u32)> = groups
        .iter()
        .flat_map(|g| g.rows.iter().map(move |r| (g.heading, r.label, r.threshold_halves)))
        .collect();
    assert_eq!(
        rows,
        vec![
            ("1.4.3 Contrast (Minimum) - AA", "Regular text", 9),
            ("1.4.3 Contrast (Minimum) - AA", "Large text", 6),
            ("1.4.6 Contrast (Enhanced) - AAA", "Regular text", 14),
            ("1.4.6 Contrast (Enhanced) - AAA", "Large text", 9),
            ("1.4.11 Non-text Contrast - AA", "UI components", 6),
        ]
    );
    let badges = groups[0].badges(8);
    assert_eq!((badges[0].text, badges[0].color), ("Fail", Rgb::new(0xFE, 0x41, 0x1A)));
    assert_eq!((badges[1].text, badges[1].color), ("Pass", Rgb::new(0x2d, 0x9e, 0x2d)));
    assert_eq!(badges[1].label, "Large text");
}

#[test]
fn verdicts_agree_with_levels() {
    let groups = shown_criteria();
    for halves in 0..50 {
        let pass = |group: usize, row: usize| groups[group].badges(halves)[row].text == "Pass";
        let normal = wcag_level(halves, false);
        let large = wcag_level(halves, true);
        assert_eq!(pass(0, 0), normal == WcagLevel::Aa || normal == WcagLevel::Aaa);
        assert_eq!(pass(0, 1), large == WcagLevel::Aa || large == WcagLevel::Aaa);
        assert_eq!(pass(1, 0), normal == WcagLevel::Aaa);
        assert_eq!(pass(1, 1), large == WcagLevel::Aaa);
    }
}
