use ansi_draw::{AnsiGraphicMode, AnsiGraphics};

#[test]
fn empty_set_renders_nothing() {
    let g = AnsiGraphics::new();
    assert_eq!(g.to_string(false), "");
    assert_eq!(g.to_string(true), "");
}

#[test]
fn set_codes_in_canonical_order() {
    let g = AnsiGraphics::new()
        .add_mode(AnsiGraphicMode::Underline)
        .add_mode(AnsiGraphicMode::Bold);
    assert_eq!(g.to_string(false), "\x1b[1m\x1b[4m");
    assert_eq!(g.to_string(true), "\x1b[22m\x1b[24m");
}

#[test]
fn union_is_idempotent() {
    let g = AnsiGraphics::new().add_mode(AnsiGraphicMode::Italic);
    let once = g.union(&AnsiGraphics::from_mode(AnsiGraphicMode::Strike));
    let twice = once.union(&AnsiGraphics::from_mode(AnsiGraphicMode::Strike));
    assert_eq!(once, twice);
}

#[test]
fn union_is_order_independent() {
    let a = AnsiGraphics::from_mode(AnsiGraphicMode::Bold);
    let b = AnsiGraphics::from_mode(AnsiGraphicMode::Hidden);
    assert_eq!(a.union(&b), b.union(&a));
}

#[test]
fn from_bits_round_trip() {
    let g = AnsiGraphics::from_bits(0b1000_0001);
    assert!(g.bold);
    assert!(g.strike);
    assert!(!g.faint);
    assert_eq!(g.to_string(false), "\x1b[1m\x1b[9m");
    let all = AnsiGraphics::from_bits(0xFF);
    assert_eq!(
        all.to_string(false),
        "\x1b[1m\x1b[2m\x1b[3m\x1b[4m\x1b[5m\x1b[7m\x1b[8m\x1b[9m"
    );
}

#[test]
fn contains_reports_membership() {
    let g = AnsiGraphics::from_mode(AnsiGraphicMode::Reverse);
    assert!(g.contains(AnsiGraphicMode::Reverse));
    assert!(!g.contains(AnsiGraphicMode::Bold));
}

#[test]
fn get_mode_is_case_insensitive() {
    assert_eq!(AnsiGraphics::get_mode("bold", false), "\x1b[1m");
    assert_eq!(AnsiGraphics::get_mode("BOLD", true), "\x1b[22m");
    assert_eq!(AnsiGraphics::get_mode("Underline", true), "\x1b[24m");
    assert_eq!(AnsiGraphics::get_mode("strike", false), "\x1b[9m");
    assert_eq!(AnsiGraphics::get_mode("BlInKiNg", false), "\x1b[5m");
}
