use ansi_draw::{AnsiChar, AnsiColor, AnsiGraphicMode, AnsiGraphics, AnsiString, ColorMode};

#[test]
fn colorless_single_cell_serializes_bare() {
    // An isolated colorless cell: just the character and the trailing reset.
    let astr = AnsiString::new_colorless("a");
    assert_eq!(astr.to_string(&ColorMode::TRUECOLOR), "a\x1b[0m");
}

#[test]
fn isolated_cell_path_emits_leading_reset() {
    let c = AnsiChar::new('x', None, None);
    assert_eq!(c.to_string(&ColorMode::TRUECOLOR), "\x1b[0mx");
}

#[test]
fn uniform_color_emitted_once() {
    let astr = AnsiString::new_fore("ab", (1, 2, 3));
    assert_eq!(
        astr.to_string(&ColorMode::TRUECOLOR),
        "\x1b[38;2;1;2;3mab\x1b[0m"
    );
}

#[test]
fn color_change_resets_and_reapplies() {
    let a = AnsiString::new_fore("a", (1, 2, 3));
    let b = AnsiString::new_fore("b", (4, 5, 6));
    let joined = a.concat(&b);
    assert_eq!(
        joined.to_string(&ColorMode::TRUECOLOR),
        "\x1b[38;2;1;2;3ma\x1b[0m\x1b[38;2;4;5;6mb\x1b[0m"
    );
}

#[test]
fn background_before_foreground_after_color_change() {
    let a = AnsiString::new_colorless("a");
    let b = AnsiString::new("b", Some((9, 9, 9)), Some((1, 1, 1)));
    let joined = a.concat(&b);
    assert_eq!(
        joined.to_string(&ColorMode::TRUECOLOR),
        "a\x1b[0m\x1b[48;2;1;1;1m\x1b[38;2;9;9;9mb\x1b[0m"
    );
}

#[test]
fn graphics_only_change_resets_flags_not_colors() {
    let mut a = AnsiString::new_colorless("a");
    a.add_graphics(AnsiGraphics::from_mode(AnsiGraphicMode::Bold));
    let b = AnsiString::new_colorless("b");
    let joined = a.concat(&b);
    assert_eq!(
        joined.to_string(&ColorMode::TRUECOLOR),
        "\x1b[1ma\x1b[22mb\x1b[0m"
    );
}

#[test]
fn limited_mode_uses_palette_index() {
    let astr = AnsiString::new_back("a", (255, 100, 0));
    assert_eq!(astr.to_string(&ColorMode::LIMITED), "\x1b[48;5;202ma\x1b[0m");
}

#[test]
fn first_cell_prefix_background_before_foreground() {
    let astr = AnsiString::new("c", Some((9, 9, 9)), Some((1, 1, 1)));
    assert_eq!(
        astr.to_string(&ColorMode::TRUECOLOR),
        "\x1b[48;2;1;1;1m\x1b[38;2;9;9;9mc\x1b[0m"
    );
}

#[test]
fn noopt_renders_each_cell_in_isolation() {
    let astr = AnsiString::new_back("a", (0, 0, 0));
    assert_eq!(
        astr.to_string_noopt(&ColorMode::TRUECOLOR),
        "\x1b[0m\x1b[48;2;0;0;0ma\x1b[0m"
    );
}

#[test]
fn add_graphics_twice_same_as_once() {
    let flags = AnsiGraphics::from_mode(AnsiGraphicMode::Underline);
    let mut once = AnsiString::new_colorless("xy");
    once.add_graphics(flags);
    let mut twice = AnsiString::new_colorless("xy");
    twice.add_graphics(flags);
    twice.add_graphics(flags);
    for i in 0..2 {
        assert_eq!(once.vec[i].graphics, twice.vec[i].graphics);
    }
}

#[test]
fn merge_place_keeps_red_background() {
    let mut line = AnsiString::new_back("aaaa", (255, 0, 0));
    let src = AnsiString::new_colorless("zz");
    line.place(&src, 1, false);
    for i in 0..4 {
        assert_eq!(line.vec[i].back_color, Some(AnsiColor(255, 0, 0)));
    }
    assert_eq!(line.vec[1].char, 'z');
    assert_eq!(line.vec[2].char, 'z');
    assert_eq!(line.vec[0].char, 'a');
}

#[test]
fn assign_place_replaces_wholesale() {
    let mut line = AnsiString::new_back("aaaa", (255, 0, 0));
    let src = AnsiString::new_colorless("z");
    line.place(&src, 2, true);
    assert_eq!(line.vec[2].back_color, None);
    assert_eq!(line.vec[2].char, 'z');
    assert_eq!(line.vec[1].back_color, Some(AnsiColor(255, 0, 0)));
}

#[test]
fn place_clips_at_line_end() {
    let mut line = AnsiString::new_colorless(".....");
    let content = AnsiString::new_fore("abcd", (1, 2, 3));
    line.place(&content, 3, false);
    let chars: Vec<char> = line.vec.iter().map(|c| c.char).collect();
    assert_eq!(chars, vec!['.', '.', '.', 'a', 'b']);
    assert_eq!(content.len(), 4);
}

#[test]
fn center_place_text_starts_at_middle() {
    let mut line = AnsiString::new_colorless("##########");
    line.center_place_str("AB");
    let chars: Vec<char> = line.vec.iter().map(|c| c.char).collect();
    assert_eq!(chars, vec!['#', '#', '#', '#', 'A', 'B', '#', '#', '#', '#']);
}

#[test]
fn split_and_cut_are_nondestructive() {
    let line = AnsiString::new_colorless("abcd");
    let (head, tail) = line.split_at(1);
    assert_eq!(head.len(), 1);
    assert_eq!(tail.len(), 3);
    assert_eq!(head.vec[0].char, 'a');
    assert_eq!(tail.vec[0].char, 'b');
    let cut = line.cut_at(2);
    assert_eq!(cut.len(), 2);
    assert_eq!(cut.vec[1].char, 'b');
    assert_eq!(line.len(), 4);
}

#[test]
fn concat_keeps_order() {
    let a = AnsiString::new_colorless("ab");
    let b = AnsiString::new_colorless("cd");
    let j = a.concat(&b);
    let chars: Vec<char> = j.vec.iter().map(|c| c.char).collect();
    assert_eq!(chars, vec!['a', 'b', 'c', 'd']);
}

#[test]
fn empty_source_place_changes_nothing() {
    let mut line = AnsiString::new_colorless("ab");
    let empty = AnsiString::new_colorless("");
    line.place(&empty, 0, false);
    assert_eq!(line.vec[0].char, 'a');
    assert_eq!(line.vec[1].char, 'b');
}

#[test]
fn cell_set_and_wrap() {
    let mut c = AnsiChar::new('q', Some((1, 2, 3)), None);
    c.set('z');
    assert_eq!(c.char, 'z');
    assert_eq!(c.fore_color, Some(AnsiColor(1, 2, 3)));
    let astr = c.as_ansistring();
    assert_eq!(astr.len(), 1);
    assert_eq!(astr.vec[0].char, 'z');
}
