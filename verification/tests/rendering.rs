use tetromino_term::framebuffer::{Framebuffer, TetrisContext};
use tetromino_term::pixel::{CellColor, Pixel};

fn solid(color: ansi_term::Color, glyph: &str) -> String {
    color.on(color).paint(glyph).to_string()
}

#[test]
fn pixel_text_matches_the_terminal_painter() {
    let red = Pixel::Color(CellColor::Red).get_string();
    assert_eq!(red, solid(ansi_term::Color::Red, "#"));
    assert_eq!(red, "\u{1b}[41;31m#\u{1b}[0m");
    let background = Pixel::Background.get_string();
    assert_eq!(background, solid(ansi_term::Color::Black, " "));
    assert_eq!(background, "\u{1b}[40;30m \u{1b}[0m");
}

#[test]
fn every_color_paints_thirteen_characters() {
    for color in [
        CellColor::Black,
        CellColor::Red,
        CellColor::Green,
        CellColor::Yellow,
        CellColor::Blue,
        CellColor::Purple,
        CellColor::Cyan,
        CellColor::White,
    ] {
        assert_eq!(Pixel::Color(color).get_string().chars().count(), 13);
    }
}

#[test]
fn framebuffer_halves_the_width_and_keeps_the_height() {
    let fb = Framebuffer::new(33, 12);
    assert_eq!(fb.term_width, 33);
    assert_eq!(fb.term_height, 12);
    assert_eq!(fb.xdensity, 2);
    assert_eq!(fb.ydensity, 1);
    assert_eq!(fb.width, 16);
    assert_eq!(fb.height, 12);
    assert_eq!(fb.data.len(), 16 * 12);
    assert!(fb.data.iter().all(|p| *p == Pixel::Background));
}

#[test]
fn set_pixel_writes_row_major() {
    let mut fb = Framebuffer::new(8, 4);
    fb.set_pixel(1, 2, Pixel::Color(CellColor::Green));
    assert_eq!(fb.data[2 * 4 + 1], Pixel::Color(CellColor::Green));
    let colored = fb.data.iter().filter(|p| **p != Pixel::Background).count();
    assert_eq!(colored, 1);
}

#[test]
fn one_cell_surface_serializes_to_two_glyphs_and_a_newline() {
    let mut fb = Framebuffer::new(2, 1);
    assert_eq!((fb.width, fb.height), (1, 1));
    fb.set_pixel(0, 0, Pixel::Color(CellColor::Red));
    let text = fb.to_string();
    let cell = solid(ansi_term::Color::Red, "#");
    assert_eq!(text, format!("{}{}\n", cell, cell));
    assert_eq!(text, "\u{1b}[41;31m#\u{1b}[0m\u{1b}[41;31m#\u{1b}[0m\n");
}

#[test]
fn set_pixel_round_trips_through_serialization() {
    let mut fb = Framebuffer::new(8, 2);
    assert_eq!((fb.width, fb.height), (4, 2));
    fb.set_pixel(2, 1, Pixel::Color(CellColor::Cyan));
    let text = fb.to_string();
    // each cell is 13 characters repeated twice; a line is 4 * 26 + 1
    let line_len = 4 * 26 + 1;
    assert_eq!(text.len(), 2 * line_len);
    let cell_start = line_len + 2 * 26;
    let cyan = solid(ansi_term::Color::Cyan, "#");
    let blank = solid(ansi_term::Color::Black, " ");
    assert_eq!(&text[cell_start..cell_start + 26], format!("{}{}", cyan, cyan));
    // every other cell still reads as background
    for y in 0..2usize {
        for x in 0..4usize {
            if (x, y) == (2, 1) {
                continue;
            }
            let start = y * line_len + x * 26;
            assert_eq!(&text[start..start + 26], format!("{}{}", blank, blank));
        }
    }
    // both lines end with their newline
    assert_eq!(&text[line_len - 1..line_len], "\n");
    assert_eq!(&text[2 * line_len - 1..], "\n");
}

#[test]
fn taller_densities_duplicate_lines() {
    // serialization follows the stored densities, whatever they are
    let mut fb = Framebuffer::new(2, 1);
    fb.set_pixel(0, 0, Pixel::Color(CellColor::Blue));
    fb.ydensity = 2;
    let text = fb.to_string();
    let cell = solid(ansi_term::Color::Blue, "#");
    let line = format!("{}{}\n", cell, cell);
    assert_eq!(text, format!("{}{}", line, line));
}

#[test]
fn context_uses_the_detected_size() {
    let ctx = TetrisContext::init_with_size(Some((60, 20)));
    assert_eq!((ctx.term_width, ctx.term_height), (60, 20));
    assert_eq!((ctx.framebuffer.width, ctx.framebuffer.height), (30, 20));
}

#[test]
fn context_falls_back_to_forty_by_forty() {
    let ctx = TetrisContext::init_with_size(None);
    assert_eq!((ctx.term_width, ctx.term_height), (40, 40));
    assert_eq!((ctx.framebuffer.width, ctx.framebuffer.height), (20, 40));
}

#[test]
fn next_frame_replaces_the_drawn_buffer() {
    let mut ctx = TetrisContext::init_with_size(Some((10, 3)));
    ctx.framebuffer
        .set_pixel(0, 0, Pixel::Color(CellColor::Purple));
    ctx.next_frame();
    assert_eq!((ctx.framebuffer.width, ctx.framebuffer.height), (5, 3));
    assert!(ctx.framebuffer.data.iter().all(|p| *p == Pixel::Background));
}
