use ansi_draw::color::calc_legacy_color;
use ansi_draw::{AnsiColor, ColorGround, ColorMode};

#[test]
fn quantize_zero_below_48() {
    assert_eq!(calc_legacy_color(0), 0);
    assert_eq!(calc_legacy_color(47), 0);
    assert_eq!(calc_legacy_color(48), 0);
}

#[test]
fn quantize_nondecreasing_and_max_five() {
    let samples = [48u8, 60, 100, 150, 200, 236, 255];
    let mut last = 0u8;
    for &c in samples.iter() {
        let q = calc_legacy_color(c);
        assert!(q >= last);
        assert!(q <= 5);
        last = q;
    }
    assert_eq!(calc_legacy_color(100), 1);
    assert_eq!(calc_legacy_color(255), 5);
}

#[test]
fn palette_index_within_cube() {
    // Extreme corners of the channel space land inside [16, 231].
    assert_eq!(
        AnsiColor(255, 0, 0).to_string(&ColorMode::LIMITED, &ColorGround::FORE),
        "\x1b[38;5;196m"
    );
    assert_eq!(
        AnsiColor(0, 0, 0).to_string(&ColorMode::LIMITED, &ColorGround::BACK),
        "\x1b[48;5;16m"
    );
    assert_eq!(
        AnsiColor(255, 255, 255).to_string(&ColorMode::LIMITED, &ColorGround::FORE),
        "\x1b[38;5;231m"
    );
}

#[test]
fn truecolor_fragment_exact() {
    assert_eq!(
        AnsiColor(1, 22, 133).to_string(&ColorMode::TRUECOLOR, &ColorGround::BACK),
        "\x1b[48;2;1;22;133m"
    );
    assert_eq!(
        AnsiColor(0, 255, 0).to_string(&ColorMode::TRUECOLOR, &ColorGround::FORE),
        "\x1b[38;2;0;255;0m"
    );
}

#[test]
fn color_new_and_equality() {
    let c = AnsiColor::new(7, 8, 9);
    assert_eq!(c, AnsiColor(7, 8, 9));
    assert_ne!(c, AnsiColor(7, 8, 10));
}
