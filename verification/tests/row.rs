use colza::color::Rgb;
use colza::row::{parse_color, ColorRowState, FieldEvents};

const NOTHING: FieldEvents = FieldEvents {
    changed: false,
    lost_focus: false,
    pick_pressed: false,
};
const EDITED: FieldEvents = FieldEvents {
    changed: true,
    lost_focus: false,
    pick_pressed: false,
};
const LEFT: FieldEvents = FieldEvents {
    changed: false,
    lost_focus: true,
    pick_pressed: false,
};

/// What std's text functions make of a text.
fn expected(text: &str) -> Option<Rgb> {
    let t = text.trim();
    if t.to_lowercase().starts_with("rgb") {
        let inner = t.split_once('(')?.1.strip_suffix(')')?;
        let mut parts = inner.split(',').map(|p| p.trim().parse::<u16>());
        let r = parts.next()?.ok()?;
        let g = parts.next()?.ok()?;
        let b = parts.next()?.ok()?;
        if parts.next().is_some() || r > 255 || g > 255 || b > 255 {
            return None;
        }
        return Some(Rgb::new(r as u8, g as u8, b as u8));
    }
    let s = t.strip_prefix('#').unwrap_or(t).trim().trim_start_matches('#');
    if s.len() != 6 {
        return None;
    }
    let byte = |from: usize| s.get(from..from + 2).and_then(|p| u8::from_str_radix(p, 16).ok());
    Some(Rgb::new(byte(0)?, byte(2)?, byte(4)?))
}

#[test]
fn colors_are_read_from_every_notation() {
    let c = Rgb::new(0x1A, 0x2B, 0x3C);
    assert_eq!(parse_color("#1a2b3c"), Some(c));
    assert_eq!(parse_color("1A2B3C"), Some(c));
    assert_eq!(parse_color(" rgb(26, 43, 60) "), Some(c));
    assert_eq!(parse_color("RGB(26,43,60)"), Some(c));
    assert_eq!(parse_color("rgb(26, 43)"), None);
    assert_eq!(parse_color("rgb(26, 43, 60, 1)"), None);
    assert_eq!(parse_color("rgb(26, 43, 256)"), None);
    assert_eq!(parse_color("rgb 26, 43, 60"), None);
    assert_eq!(parse_color("# 1a2b3c"), Some(c));
}

#[test]
fn reading_agrees_with_std() {
    let texts = [
        "", " ", "#", "##", "#123456", "123456", "##123456", "# 123456", "#12 456", "12345", "1234567",
        "rgb", "rgb(", "rgb)", "rgb()", "rgb(,,)", "rgb(1,2,3)", "rgb( 1 , 2 , 3 )", "rGb(1,2,3)",
        "rgba(1,2,3)", "rgb (1,2,3)", "rgb(1,2,3) ", "rgb(1,2,3);", "rgb((1,2,3)", "rgb(1,2,3))",
        "rgb(+1,+2,+3)", "rgb(++1,2,3)", "rgb(-1,2,3)", "rgb(+,2,3)", "rgb(0001,00,255)",
        "rgb(1,2,256)", "rgb(65536,2,3)", "rgb(99999999999999999999,2,3)", "rgb(1,2,3,)", "rgb(1,2)",
        "rgb(1,,3)", "rgb(a,b,c)", "rgb(1.0,2,3)", "rgb(\u{a0}1\u{3000},2,3)", "rgb(١,2,3)",
        "+1+2+3", "-1-2-3", "+g1234", "ééé", "aébcd", "€€", "12€4", "#ABCDEF", "abcdef", "AbCdEf",
        "\u{feff}123456", "\u{85}123456\u{2029}", "xgb(1,2,3)", "rxb(1,2,3)", "rgx(1,2,3)", "ＲＧＢ(1,2,3)",
    ];
    for text in texts {
        assert_eq!(parse_color(text), expected(text), "{text:?}");
    }
}

#[test]
fn only_latin_letters_are_lowered_to_rgb() {
    for c in '\0'..=char::MAX {
        let lower: String = c.to_lowercase().collect();
        for (small, capital) in [('r', 'R'), ('g', 'G'), ('b', 'B')] {
            assert_eq!(lower.starts_with(small), c == small || c == capital);
        }
        if c == 'r' || c == 'R' || c == 'g' || c == 'G' || c == 'b' || c == 'B' {
            assert_eq!(lower.chars().count(), 1);
        }
    }
}

#[test]
fn decimal_notation_reads_back() {
    for n in 0..=255u8 {
        let c = Rgb::new(n, n ^ 0xff, 7);
        assert_eq!(parse_color(&format!("rgb({}, {}, {})", c.r, c.g, c.b)), Some(c));
    }
}

#[test]
fn a_new_field_shows_its_color() {
    let row = ColorRowState::new("Foreground", Rgb::new(1, 2, 3));
    assert_eq!(row.label, "Foreground");
    assert_eq!(row.color, Rgb::new(1, 2, 3));
    assert_eq!(row.hex_text, "#010203");
    assert_eq!(row.last_valid_hex, "#010203");
}

#[test]
fn typing_a_color_changes_it_and_leaves_the_text() {
    let mut row = ColorRowState::new("Foreground", Rgb::new(0, 0, 0));
    row.hex_text = String::from("rgb(255, 0, 10)");
    let response = row.respond(EDITED, false);
    assert!(response.changed);
    assert_eq!(row.color, Rgb::new(255, 0, 10));
    assert_eq!(row.hex_text, "rgb(255, 0, 10)");
    assert!(!row.respond(NOTHING, false).changed);
    assert!(!row.respond(LEFT, false).changed);
    assert_eq!(row.hex_text, "#FF000A");
}

#[test]
fn invalid_text_is_taken_back_on_leaving() {
    let mut row = ColorRowState::new("Background", Rgb::new(9, 8, 7));
    for typed in ["#12", "aébcd", "no color"] {
        row.hex_text = String::from(typed);
        assert!(!row.respond(EDITED, false).changed);
        assert_eq!(row.color, Rgb::new(9, 8, 7));
        assert_eq!(row.hex_text, typed);
        row.respond(LEFT, false);
        assert_eq!(row.hex_text, "#090807");
    }
}

#[test]
fn setting_a_color_sets_the_texts() {
    let mut row = ColorRowState::new("Background", Rgb::new(9, 8, 7));
    row.hex_text = String::from("half ty");
    row.set_color(Rgb::new(0xab, 0xcd, 0xef));
    assert_eq!(row.hex_text, "#ABCDEF");
    assert_eq!(row.last_valid_hex, "#ABCDEF");
    assert_eq!(row.label, "Background");
}

#[test]
fn the_pick_button_is_dead_while_picking() {
    let mut row = ColorRowState::new("Background", Rgb::new(9, 8, 7));
    let pressed = FieldEvents {
        changed: false,
        lost_focus: false,
        pick_pressed: true,
    };
    assert!(row.respond(pressed, false).pick);
    assert!(!row.respond(pressed, true).pick);
    assert!(!row.respond(NOTHING, false).pick);
}
