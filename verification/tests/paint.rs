use hexview::paint::{paint, paint_line};
use hexview::render::{Span, Tint};
use hexview::report::{Line, LineKind};

fn piece(tint: Tint, text: &str) -> Span {
    Span { tint, text: text.to_string() }
}

#[test]
fn paint_wraps_each_colour_in_its_code() {
    colored::control::set_override(true);
    assert_eq!(paint(&piece(Tint::Plain, "41")), "41");
    assert_eq!(paint(&piece(Tint::Cyan, "0F ")), "\x1b[36m0F \x1b[0m");
    assert_eq!(paint(&piece(Tint::Yellow, "0010")), "\x1b[33m0010\x1b[0m");
    assert_eq!(paint(&piece(Tint::BrightGreen, "41")), "\x1b[92m41\x1b[0m");
    assert_eq!(paint(&piece(Tint::BrightRed, "00")), "\x1b[91m00\x1b[0m");
    assert_eq!(paint(&piece(Tint::BrightMagenta, "00")), "\x1b[95m00\x1b[0m");
    assert_eq!(paint(&piece(Tint::BrightBlue, "FF")), "\x1b[94mFF\x1b[0m");
}

#[test]
fn paint_wraps_the_greys_in_some_colour() {
    colored::control::set_override(true);
    for tint in [Tint::Frame, Tint::Dark] {
        let shown = paint(&piece(tint, "│ "));
        assert!(shown.starts_with("\x1b["));
        assert!(shown.ends_with("m│ \x1b[0m"));
    }
}

#[test]
fn paint_leaves_the_text_bare_without_colours() {
    colored::control::set_override(false);
    for tint in [
        Tint::Plain,
        Tint::Frame,
        Tint::Dark,
        Tint::Cyan,
        Tint::Yellow,
        Tint::BrightGreen,
        Tint::BrightRed,
        Tint::BrightMagenta,
        Tint::BrightBlue,
    ] {
        assert_eq!(paint(&piece(tint, "7F")), "7F");
    }
}

#[test]
fn diagnostic_lines_are_red_and_yellow() {
    colored::control::set_override(true);
    let error = Line { kind: LineKind::Error, text: "Error: x".to_string() };
    let info = Line { kind: LineKind::Info, text: "Consider: y\n".to_string() };
    assert_eq!(paint_line(&error), "\x1b[91mError: x\x1b[0m");
    assert_eq!(paint_line(&info), "\x1b[33mConsider: y\n\x1b[0m");
    colored::control::set_override(false);
    assert_eq!(paint_line(&error), "Error: x");
}
