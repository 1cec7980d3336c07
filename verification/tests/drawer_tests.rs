use ansi_draw::{AnsiColor, AnsiString, ColorMode, Drawer};

#[test]
fn render_end_to_end() {
    let mut drawer = Drawer::new((3, 10), Some((0, 0, 0)));
    drawer.place_str("HI", (1, 2));
    let out = drawer.render(&ColorMode::TRUECOLOR);
    let plain = "\x1b[48;2;0;0;0m          \x1b[0m\n";
    let middle = "\x1b[48;2;0;0;0m  HI      \x1b[0m\n";
    assert_eq!(out, format!("{}{}{}", plain, middle, plain));
    let rows: Vec<&str> = out.split('\n').filter(|r| !r.is_empty()).collect();
    assert_eq!(rows.len(), 3);
    for row in rows.iter() {
        assert!(row.ends_with("\x1b[0m"));
    }
    assert_eq!(rows[1].find('H'), rows[1].find("HI"));
}

#[test]
fn default_plane_color_fills_canvas() {
    let drawer = Drawer::new((1, 2), None);
    assert_eq!(drawer.plane[0].vec[0].back_color, Some(AnsiColor(110, 90, 250)));
    assert_eq!(drawer.plane[0].vec[0].char, ' ');
}

#[test]
fn out_of_bounds_place_is_a_no_op() {
    let mut drawer = Drawer::new((2, 4), Some((1, 1, 1)));
    let before = drawer.render(&ColorMode::TRUECOLOR);
    let text = AnsiString::new_colorless("zz");
    drawer.place(&text, (2, 0), false);
    drawer.place(&text, (0, 4), false);
    assert_eq!(drawer.render(&ColorMode::TRUECOLOR), before);
}

#[test]
fn place_clips_to_width() {
    let mut drawer = Drawer::new((1, 3), Some((1, 1, 1)));
    let text = AnsiString::new_colorless("abcd");
    drawer.place(&text, (0, 1), false);
    let chars: Vec<char> = drawer.plane[0].vec.iter().map(|c| c.char).collect();
    assert_eq!(chars, vec![' ', 'a', 'b']);
}

#[test]
fn center_place_centers_horizontally() {
    let mut drawer = Drawer::new((1, 10), Some((1, 1, 1)));
    let text = AnsiString::new_colorless("AB");
    drawer.center_place(&text, 0, false);
    let chars: Vec<char> = drawer.plane[0].vec.iter().map(|c| c.char).collect();
    assert_eq!(chars, vec![' ', ' ', ' ', ' ', 'A', 'B', ' ', ' ', ' ', ' ']);
}

#[test]
fn center_place_str_centers_text() {
    let mut drawer = Drawer::new((2, 9), Some((1, 1, 1)));
    drawer.center_place_str("XYZ", 1);
    let chars: Vec<char> = drawer.plane[1].vec.iter().map(|c| c.char).collect();
    assert_eq!(chars, vec![' ', ' ', ' ', 'X', 'Y', 'Z', ' ', ' ', ' ']);
}

#[test]
fn border_shading_scales_backgrounds() {
    let mut main = Drawer::new((2, 3), Some((10, 10, 10)));
    let other = Drawer::new((1, 2), Some((100, 200, 51)));
    main.place_drawer(&other, (0, 0), true);
    assert_eq!(
        main.plane[0].vec[0].back_color,
        Some(AnsiColor(90, 180, 45))
    );
    assert_eq!(
        main.plane[0].vec[1].back_color,
        Some(AnsiColor(90, 180, 45))
    );
    // outside the pasted footprint nothing moves
    assert_eq!(main.plane[0].vec[2].back_color, Some(AnsiColor(10, 10, 10)));
    assert_eq!(main.plane[1].vec[0].back_color, Some(AnsiColor(10, 10, 10)));
}

#[test]
fn shading_keeps_absent_backgrounds_absent() {
    let mut main = Drawer::new((1, 2), Some((10, 10, 10)));
    let mut other = Drawer::new((1, 1), Some((100, 100, 100)));
    // strip the background of the only source cell
    let bare = AnsiString::new_colorless("q");
    other.place(&bare, (0, 0), true);
    main.place_drawer(&other, (0, 0), true);
    // the shaded source cell has no background, so the merge keeps the
    // destination's own background untouched
    assert_eq!(main.plane[0].vec[0].back_color, Some(AnsiColor(10, 10, 10)));
    assert_eq!(main.plane[0].vec[0].char, 'q');
}

#[test]
fn place_drawer_without_border_copies_rows() {
    let mut main = Drawer::new((3, 3), Some((10, 10, 10)));
    let other = Drawer::new((2, 2), Some((200, 100, 40)));
    main.place_drawer(&other, (1, 1), false);
    assert_eq!(main.plane[1].vec[1].back_color, Some(AnsiColor(200, 100, 40)));
    assert_eq!(main.plane[2].vec[2].back_color, Some(AnsiColor(200, 100, 40)));
    assert_eq!(main.plane[0].vec[0].back_color, Some(AnsiColor(10, 10, 10)));
    assert_eq!(main.plane[1].vec[0].back_color, Some(AnsiColor(10, 10, 10)));
}

#[test]
fn place_drawer_clips_rows_at_bottom() {
    let mut main = Drawer::new((2, 2), Some((10, 10, 10)));
    let other = Drawer::new((3, 2), Some((50, 50, 50)));
    main.place_drawer(&other, (1, 0), false);
    assert_eq!(main.plane[0].vec[0].back_color, Some(AnsiColor(10, 10, 10)));
    assert_eq!(main.plane[1].vec[0].back_color, Some(AnsiColor(50, 50, 50)));
}

#[test]
fn zero_height_canvas_accepts_no_writes() {
    let mut drawer = Drawer::new((0, 5), Some((1, 2, 3)));
    let text = AnsiString::new_colorless("a");
    drawer.place(&text, (0, 0), false);
    assert_eq!(drawer.plane.len(), 0);
}
