use vibingide::pty::ansi::{
    apply_cursor_style, cell_char, cell_style, color_index_to_rgb, color_to_rgb, cube_channel,
    render_snapshot, AnsiParser, CellStyle, Rgb, ScreenCell, ScreenSnapshot, TermColor, TextStyle,
};

fn rgb(r: u8, g: u8, b: u8) -> Rgb {
    Rgb { r, g, b }
}

#[test]
fn base_palette_colours() {
    assert_eq!(color_index_to_rgb(0), rgb(0, 0, 0));
    assert_eq!(color_index_to_rgb(1), rgb(205, 49, 49));
    assert_eq!(color_index_to_rgb(9), rgb(241, 76, 76));
    assert_eq!(color_index_to_rgb(15), rgb(255, 255, 255));
}

#[test]
fn colour_cube_and_grey_ramp() {
    assert_eq!(cube_channel(0), 0);
    assert_eq!(cube_channel(1), 95);
    assert_eq!(cube_channel(5), 255);
    assert_eq!(color_index_to_rgb(16), rgb(0, 0, 0));
    // 196 = 16 + 36*5: pure red.
    assert_eq!(color_index_to_rgb(196), rgb(255, 0, 0));
    // 67 = 16 + 36*1 + 6*2 + 3.
    assert_eq!(color_index_to_rgb(67), rgb(95, 135, 175));
    assert_eq!(color_index_to_rgb(231), rgb(255, 255, 255));
    assert_eq!(color_index_to_rgb(232), rgb(8, 8, 8));
    assert_eq!(color_index_to_rgb(255), rgb(238, 238, 238));
}

#[test]
fn terminal_colours_map_to_rgb() {
    assert_eq!(color_to_rgb(TermColor::Default), None);
    assert_eq!(color_to_rgb(TermColor::Idx(2)), Some(rgb(13, 188, 121)));
    assert_eq!(color_to_rgb(TermColor::Rgb(1, 2, 3)), Some(rgb(1, 2, 3)));
}

fn screen_cell(contents: &str) -> ScreenCell {
    ScreenCell {
        contents: contents.to_string(),
        fg: TermColor::Default,
        bg: TermColor::Default,
        bold: false,
        italic: false,
        underline: false,
        inverse: false,
    }
}

#[test]
fn cells_show_their_first_character_or_a_blank() {
    assert_eq!(cell_char(&None), ' ');
    assert_eq!(cell_char(&Some(screen_cell(""))), ' ');
    assert_eq!(cell_char(&Some(screen_cell("x"))), 'x');
    assert_eq!(cell_char(&Some(screen_cell("e\u{301}"))), 'e');
}

#[test]
fn inverse_cells_swap_colours() {
    let mut c = screen_cell("x");
    c.fg = TermColor::Idx(1);
    c.bg = TermColor::Rgb(10, 20, 30);
    c.bold = true;
    c.inverse = true;
    let s = cell_style(&c);
    assert_eq!(s.fg, Some(rgb(10, 20, 30)));
    assert_eq!(s.bg, Some(rgb(205, 49, 49)));
    assert!(s.text.bold);
    assert!(!s.text.italic);
}

#[test]
fn cursor_swaps_colours_with_black_and_white_defaults() {
    let mut style = CellStyle::default();
    let mut ch = 'a';
    apply_cursor_style(&mut style, &mut ch);
    assert_eq!(style.fg, Some(rgb(255, 255, 255)));
    assert_eq!(style.bg, Some(rgb(0, 0, 0)));
    assert_eq!(ch, 'a');
    let mut style = CellStyle {
        fg: Some(rgb(1, 1, 1)),
        bg: Some(rgb(2, 2, 2)),
        text: TextStyle { underline: true, ..Default::default() },
    };
    apply_cursor_style(&mut style, &mut ch);
    assert_eq!(style.fg, Some(rgb(2, 2, 2)));
    assert_eq!(style.bg, Some(rgb(1, 1, 1)));
    assert!(style.text.underline);
}

#[test]
fn snapshots_render_row_by_row_with_the_cursor() {
    let snap = ScreenSnapshot {
        cursor_row: 1,
        cursor_col: 0,
        hide_cursor: false,
        application_cursor: false,
        cells: vec![
            vec![Some(screen_cell("h")), Some(screen_cell("i"))],
            vec![None, Some(screen_cell(""))],
        ],
    };
    let lines = render_snapshot(&snap, 2, 2);
    assert_eq!(lines.len(), 2);
    assert_eq!(lines[0].plain_text(), "hi");
    assert_eq!(lines[1].plain_text(), "  ");
    assert_eq!(lines[0].cells[0].style, CellStyle::default());
    assert_eq!(lines[1].cells[0].style.fg, Some(rgb(255, 255, 255)));
    assert_eq!(lines[1].cells[0].style.bg, Some(rgb(0, 0, 0)));
    assert_eq!(lines[1].cells[1].style, CellStyle::default());

    let hidden = ScreenSnapshot { hide_cursor: true, ..snap };
    let lines = render_snapshot(&hidden, 2, 2);
    assert_eq!(lines[1].cells[0].style, CellStyle::default());
}

#[test]
fn parser_renders_fed_text() {
    let mut p = AnsiParser::new(4, 20, 100);
    p.feed(b"hello");
    let lines = p.lines();
    assert_eq!(lines.len(), 4);
    assert_eq!(lines[0].cells.len(), 20);
    assert!(lines[0].plain_text().starts_with("hello"));
    assert_eq!(p.cursor_position(), Some((0, 5)));
    assert!(!p.application_cursor());
}

#[test]
fn parser_applies_sgr_colours() {
    let mut p = AnsiParser::new(3, 10, 0);
    p.feed(b"\x1b[31mR\x1b[0mx");
    let lines = p.lines();
    assert_eq!(lines[0].cells[0].ch, 'R');
    assert_eq!(lines[0].cells[0].style.fg, Some(rgb(205, 49, 49)));
    assert_eq!(lines[0].cells[1].ch, 'x');
    assert_eq!(lines[0].cells[1].style.fg, None);
}

#[test]
fn parser_tracks_application_cursor_mode() {
    let mut p = AnsiParser::new(3, 10, 0);
    p.feed(b"\x1b[?1h");
    assert!(p.application_cursor());
    p.feed(b"\x1b[?1l");
    assert!(!p.application_cursor());
}

#[test]
fn parser_size_is_clamped_and_resizable() {
    let mut p = AnsiParser::new(1, 3, 0);
    assert_eq!(p.size(), (8, 2));
    p.resize(10, 40);
    assert_eq!(p.size(), (40, 10));
    assert_eq!(p.lines().len(), 10);
    assert_eq!(p.lines()[0].cells.len(), 40);
    p.resize(0, 0);
    assert_eq!(p.size(), (8, 2));
}

#[test]
fn fresh_terminal_is_blank() {
    let p = AnsiParser::new(1, 3, 100);
    assert_eq!(p.size(), (8, 2));
    assert_eq!(p.lines().len(), 2);
    assert!(p.lines().iter().all(|l| l.cells.len() == 8 && l.plain_text() == "        "));
    assert_eq!(p.cursor_position(), Some((0, 0)));
    assert!(!p.application_cursor());
    // The cursor cell is drawn with swapped default colours, the rest plain.
    assert_eq!(p.lines()[0].cells[0].style.fg, Some(rgb(255, 255, 255)));
    assert_eq!(p.lines()[0].cells[0].style.bg, Some(rgb(0, 0, 0)));
    assert_eq!(p.lines()[1].cells[3].style, CellStyle::default());
}

#[test]
fn hidden_cursor_and_resize_follow_the_emulator() {
    let mut p = AnsiParser::new(4, 20, 0);
    p.feed(b"\x1b[?25l");
    assert_eq!(p.cursor_position(), None);
    p.feed(b"line");
    p.resize(6, 30);
    assert_eq!(p.size(), (30, 6));
    assert!(p.lines()[0].plain_text().starts_with("line"));
}
