use nos::drivers::vbe::Framebuffer;
use nos::kernel::gfx::draw_char;
use nos::kernel::gfx::font::glyph_row;
use nos::kernel::gfx::terminal::is_printable;
use nos::kernel::gfx::terminal::Terminal;
use nos::kernel::gfx::terminal::TAB_WIDTH;
use nos::log::write_str;

const FG: u32 = 0x00FF_FFFF;
const BG: u32 = 0x0000_0000;
const OLD: u32 = 0x0077_7777;

fn geometry(width: u32, height: u32) -> Framebuffer {
    Framebuffer { addr: 0xFD00_0000, pitch: width * 4, width, height, bpp: 32 }
}

fn bound(width: u32, height: u32) -> (Terminal, Vec<u32>) {
    let mut terminal = Terminal::default();
    terminal.init(geometry(width, height));
    (terminal, vec![OLD; (width * height) as usize])
}

fn cursor(terminal: &Terminal) -> (i32, i32) {
    (terminal.x_pos(), terminal.y_pos())
}

fn put(terminal: &mut Terminal, pixels: &mut [u32], text: &str) {
    for c in text.chars() {
        assert!(terminal.accepts(c));
        terminal.put_char(pixels, c, FG, BG);
    }
}

/// The screen with the glyph of `c` drawn at `(x, y)`.
fn with_glyph(pixels: &[u32], width: u32, height: u32, c: char, x: usize, y: usize) -> Vec<u32> {
    let mut drawn = pixels.to_vec();
    draw_char(&geometry(width, height), &mut drawn, c, x, y, FG, BG, true);
    drawn
}

#[test]
fn default_terminal_is_unbound() {
    let mut terminal = Terminal::default();
    assert_eq!(terminal.framebuffer(), None);
    assert_eq!(cursor(&terminal), (0, 0));
    assert_eq!((terminal.width(), terminal.height()), (0, 0));
    let mut pixels = vec![OLD; 64];
    terminal.put_char(&mut pixels, 'a', FG, BG);
    terminal.put_char(&mut pixels, '\n', FG, BG);
    terminal.put_char(&mut pixels, '\x08', FG, BG);
    terminal.clear(&mut pixels);
    assert_eq!(cursor(&terminal), (0, 0));
    assert_eq!(pixels, vec![OLD; 64]);
    assert_eq!(write_str(&mut terminal, &mut pixels, "hello\n", FG, BG), 6);
    assert_eq!(cursor(&terminal), (0, 0));
    assert_eq!(pixels, vec![OLD; 64]);
}

#[test]
fn well_formed_terminals() {
    let (mut terminal, mut pixels) = bound(64, 48);
    assert!(terminal.is_wf());
    assert!(terminal.covers(&pixels));
    assert!(!terminal.covers(&pixels[1..]));
    put(&mut terminal, &mut pixels, "ab\tc\n\x08\x08d");
    assert!(terminal.is_wf());
    let mut unusable = Terminal::default();
    assert!(unusable.is_wf());
    unusable.init(Framebuffer { addr: 0, pitch: 64, width: 64, height: 48, bpp: 32 });
    assert!(!unusable.is_wf());
    unusable.init(Framebuffer { addr: 0, pitch: 0, width: 0x8000_0001, height: 48, bpp: 32 });
    assert!(!unusable.is_wf());
    assert_eq!(unusable.width(), -0x7FFF_FFFF);
}

#[test]
fn init_binds_and_resets() {
    let (mut terminal, mut pixels) = bound(64, 48);
    put(&mut terminal, &mut pixels, "ab\nc");
    terminal.fg = 1;
    terminal.bg = 2;
    let fb = geometry(32, 16);
    terminal.init(fb);
    assert_eq!(terminal.framebuffer(), Some(fb));
    assert_eq!((terminal.width(), terminal.height()), (32, 16));
    assert_eq!(cursor(&terminal), (0, 0));
    assert_eq!(terminal.fg, 0x00FF_FFFF);
    assert_eq!(terminal.bg, 0x0000_0000);
}

#[test]
fn clear_fills_with_the_background() {
    let (mut terminal, mut pixels) = bound(9, 7);
    terminal.clear(&mut pixels);
    assert_eq!(pixels, vec![0u32; 63]);
    terminal.bg = 0x0000_00AA;
    terminal.clear(&mut pixels);
    assert_eq!(pixels, vec![0x0000_00AAu32; 63]);
    assert_eq!(cursor(&terminal), (0, 0));
}

#[test]
fn printable_characters() {
    assert!(is_printable(' '));
    assert!(is_printable('~'));
    assert!(is_printable('A'));
    assert!(!is_printable('\x7f'));
    assert!(!is_printable('\x1f'));
    assert!(!is_printable('\n'));
    assert!(!is_printable('é'));
    for code in 0..=0x2FFu32 {
        let c = char::from_u32(code).unwrap();
        assert_eq!(is_printable(c), c == ' ' || c.is_ascii_graphic());
    }
    assert_eq!(TAB_WIDTH, 4);
}

#[test]
fn character_is_drawn_and_cursor_advances() {
    let (mut terminal, mut pixels) = bound(32, 32);
    let before = pixels.clone();
    terminal.put_char(&mut pixels, 'A', FG, BG);
    assert_eq!(cursor(&terminal), (8, 0));
    assert_eq!(pixels, with_glyph(&before, 32, 32, 'A', 0, 0));
    let before = pixels.clone();
    terminal.put_char(&mut pixels, ' ', FG, BG);
    assert_eq!(cursor(&terminal), (16, 0));
    assert_eq!(pixels, with_glyph(&before, 32, 32, ' ', 8, 0));
    // A space blanks its cell.
    for y in 0..16 {
        assert_eq!(&pixels[y * 32 + 8..y * 32 + 16], &[BG; 8]);
    }
}

#[test]
fn colors_are_those_of_the_call() {
    let (mut terminal, mut pixels) = bound(8, 16);
    terminal.put_char(&mut pixels, 'T', 0xF0, 0x0B);
    for y in 0..16usize {
        for x in 0..8usize {
            let set = glyph_row('T', y) & (0x80 >> x) != 0;
            assert_eq!(pixels[y * 8 + x], if set { 0xF0 } else { 0x0B });
        }
    }
}

#[test]
fn newline_starts_the_next_row() {
    let (mut terminal, mut pixels) = bound(32, 64);
    put(&mut terminal, &mut pixels, "ab");
    let before = pixels.clone();
    terminal.put_char(&mut pixels, '\n', FG, BG);
    assert_eq!(cursor(&terminal), (0, 16));
    assert_eq!(pixels, before);
}

#[test]
fn control_characters_are_ignored() {
    let (mut terminal, mut pixels) = bound(32, 32);
    put(&mut terminal, &mut pixels, "a");
    let before = pixels.clone();
    for c in ['\0', '\r', '\x07', '\x1b', '\x7f', 'é', '\u{1F600}'] {
        terminal.put_char(&mut pixels, c, FG, BG);
        assert_eq!(cursor(&terminal), (8, 0));
        assert_eq!(pixels, before);
    }
}

#[test]
fn cursor_at_the_right_edge_wraps_first() {
    let (mut terminal, mut pixels) = bound(16, 48);
    put(&mut terminal, &mut pixels, "ab");
    assert_eq!(cursor(&terminal), (16, 0));
    let before = pixels.clone();
    terminal.put_char(&mut pixels, 'c', FG, BG);
    assert_eq!(cursor(&terminal), (8, 16));
    assert_eq!(pixels, with_glyph(&before, 16, 48, 'c', 0, 16));
    // The wrap comes before a newline too, and before a character that is ignored.
    put(&mut terminal, &mut pixels, "d");
    assert_eq!(cursor(&terminal), (16, 16));
    terminal.put_char(&mut pixels, '\0', FG, BG);
    assert_eq!(cursor(&terminal), (0, 32));
    let (mut terminal, mut pixels) = bound(16, 64);
    put(&mut terminal, &mut pixels, "ab\n");
    assert_eq!(cursor(&terminal), (0, 32));
}

#[test]
fn tab_is_four_cells() {
    let (mut terminal, mut pixels) = bound(64, 16);
    put(&mut terminal, &mut pixels, "a");
    terminal.put_char(&mut pixels, '\t', FG, 0x0000_0011);
    assert_eq!(cursor(&terminal), (40, 0));
    for y in 0..16 {
        assert_eq!(&pixels[y * 64 + 8..y * 64 + 40], &[0x0000_0011; 32]);
        assert_eq!(&pixels[y * 64 + 40..y * 64 + 64], &[OLD; 24]);
    }
    // Not aligned to a tab stop.
    terminal.put_char(&mut pixels, '\t', FG, BG);
    assert_eq!(cursor(&terminal), (72, 0));
}

#[test]
fn tab_near_the_right_edge_runs_past_it() {
    let (mut terminal, mut pixels) = bound(32, 32);
    put(&mut terminal, &mut pixels, "abc");
    terminal.put_char(&mut pixels, '\t', FG, 0x0000_0011);
    assert_eq!(cursor(&terminal), (56, 0));
    for y in 0..16 {
        assert_eq!(&pixels[y * 32 + 24..y * 32 + 32], &[0x0000_0011; 8]);
    }
    // Nothing was drawn on the next row.
    assert_eq!(&pixels[16 * 32..], &vec![OLD; 16 * 32][..]);
    terminal.put_char(&mut pixels, 'x', FG, BG);
    assert_eq!(cursor(&terminal), (8, 16));
}

#[test]
fn backspace_inside_a_row_blanks_the_cell_before() {
    let (mut terminal, mut pixels) = bound(64, 48);
    put(&mut terminal, &mut pixels, "\nabc");
    assert_eq!(cursor(&terminal), (24, 16));
    let before = pixels.clone();
    terminal.put_char(&mut pixels, '\x08', FG, 0x0000_0022);
    assert_eq!(cursor(&terminal), (16, 16));
    let mut expected = before.clone();
    for y in 16..32 {
        for x in 16..24 {
            expected[y * 64 + x] = 0x0000_0022;
        }
    }
    assert_eq!(pixels, expected);
}

#[test]
fn backspace_onto_column_zero_goes_to_the_row_above() {
    let (mut terminal, mut pixels) = bound(64, 64);
    put(&mut terminal, &mut pixels, "\n\na");
    assert_eq!(cursor(&terminal), (8, 32));
    let before = pixels.clone();
    terminal.put_char(&mut pixels, '\x08', FG, BG);
    // Stepping back reaches column 0 of row 32: on to the right edge of row 16.
    assert_eq!(cursor(&terminal), (64, 16));
    // The cell there is off the screen: nothing is drawn.
    assert_eq!(pixels, before);
}

#[test]
fn backspace_from_column_zero_leaves_the_screen() {
    let (mut terminal, mut pixels) = bound(64, 64);
    put(&mut terminal, &mut pixels, "\n");
    assert_eq!(cursor(&terminal), (0, 16));
    let before = pixels.clone();
    terminal.put_char(&mut pixels, '\x08', FG, BG);
    // Neither coordinate is zero after the step back: no wrap.
    assert_eq!(cursor(&terminal), (-8, 16));
    assert_eq!(pixels, before);
    terminal.put_char(&mut pixels, 'a', FG, BG);
    assert_eq!(cursor(&terminal), (0, 16));
    assert_eq!(pixels, before);
}

#[test]
fn backspace_on_the_top_row_goes_above_the_screen() {
    let (mut terminal, mut pixels) = bound(64, 64);
    put(&mut terminal, &mut pixels, "abc");
    let before = pixels.clone();
    terminal.put_char(&mut pixels, '\x08', FG, BG);
    // Row 0: the wrap applies although the column is not zero.
    assert_eq!(cursor(&terminal), (64, -16));
    assert_eq!(pixels, before);
    // The next character wraps back onto the screen.
    terminal.put_char(&mut pixels, 'x', FG, BG);
    assert_eq!(cursor(&terminal), (8, 0));
    assert_eq!(pixels, with_glyph(&before, 64, 64, 'x', 0, 0));
}

#[test]
fn backspace_at_the_origin() {
    let (mut terminal, mut pixels) = bound(64, 64);
    assert!(terminal.accepts('\x08'));
    terminal.put_char(&mut pixels, '\x08', FG, BG);
    assert_eq!(cursor(&terminal), (64, -16));
    assert_eq!(pixels, vec![OLD; 64 * 64]);
}

#[test]
fn newline_past_the_bottom_scrolls_one_row() {
    let (mut terminal, mut pixels) = bound(16, 48);
    put(&mut terminal, &mut pixels, "A\nB\nC");
    assert_eq!(cursor(&terminal), (8, 32));
    let before = pixels.clone();
    terminal.put_char(&mut pixels, '\n', FG, BG);
    assert_eq!(cursor(&terminal), (0, 32));
    // The first row is gone: the second took its place, the third the second's.
    assert_eq!(&pixels[0..16 * 16], &before[16 * 16..32 * 16]);
    assert_eq!(&pixels[16 * 16..32 * 16], &before[32 * 16..48 * 16]);
    assert_ne!(&pixels[0..16 * 16], &before[0..16 * 16]);
    // The last row is all background.
    assert_eq!(&pixels[32 * 16..], &vec![BG; 16 * 16][..]);
    // What was row two shows the B.
    let mut row = vec![OLD; 16 * 16];
    draw_char(&geometry(16, 16), &mut row, 'B', 0, 0, FG, BG, true);
    assert_eq!(&pixels[0..16 * 16], &row[..]);
}

#[test]
fn wrap_past_the_bottom_scrolls_too() {
    let (mut terminal, mut pixels) = bound(16, 32);
    put(&mut terminal, &mut pixels, "ab\ncd");
    assert_eq!(cursor(&terminal), (16, 16));
    let before = pixels.clone();
    terminal.put_char(&mut pixels, 'e', FG, BG);
    // The cursor wrapped to row 32, below the screen; the glyph was not drawn
    // there, and the screen moved up.
    assert_eq!(cursor(&terminal), (8, 16));
    assert_eq!(&pixels[0..16 * 16], &before[16 * 16..]);
    assert_eq!(&pixels[16 * 16..], &vec![0u32; 16 * 16][..]);
}

#[test]
fn two_rows_past_the_bottom_scroll_two_rows() {
    let (mut terminal, mut pixels) = bound(16, 48);
    put(&mut terminal, &mut pixels, "\n\nab");
    assert_eq!(cursor(&terminal), (16, 32));
    let before = pixels.clone();
    // The wrap takes the cursor to row 48, the newline to row 64.
    terminal.put_char(&mut pixels, '\n', FG, BG);
    assert_eq!(cursor(&terminal), (0, 32));
    assert_eq!(&pixels[0..16 * 16], &before[32 * 16..]);
    assert_eq!(&pixels[16 * 16..], &vec![0u32; 32 * 16][..]);
}

#[test]
fn screen_lower_than_the_scroll_is_cleared() {
    let (mut terminal, mut pixels) = bound(16, 16);
    put(&mut terminal, &mut pixels, "ab");
    terminal.put_char(&mut pixels, '\n', FG, BG);
    assert_eq!(cursor(&terminal), (0, 0));
    assert_eq!(pixels, vec![0u32; 16 * 16]);
}

#[test]
fn height_that_is_no_multiple_of_the_glyph() {
    let (mut terminal, mut pixels) = bound(16, 40);
    put(&mut terminal, &mut pixels, "a\nb\n");
    assert_eq!(cursor(&terminal), (0, 32));
    let before = pixels.clone();
    // The cell at row 32 reaches below the screen: the cursor moves, nothing is drawn.
    terminal.put_char(&mut pixels, 'c', FG, BG);
    assert_eq!(cursor(&terminal), (8, 32));
    assert_eq!(pixels, before);
    terminal.put_char(&mut pixels, '\n', FG, BG);
    // Row 48 is 8 pixels past the bottom: one glyph row is scrolled out.
    assert_eq!(cursor(&terminal), (0, 32));
    assert_eq!(&pixels[0..24 * 16], &before[16 * 16..]);
    assert_eq!(&pixels[24 * 16..], &vec![0u32; 16 * 16][..]);
}

#[test]
fn narrow_screen_draws_nothing() {
    let (mut terminal, mut pixels) = bound(4, 64);
    terminal.put_char(&mut pixels, 'a', FG, BG);
    assert_eq!(cursor(&terminal), (8, 0));
    terminal.put_char(&mut pixels, 'b', FG, BG);
    assert_eq!(cursor(&terminal), (8, 16));
    assert_eq!(pixels, vec![OLD; 4 * 64]);
}

#[test]
fn empty_screen() {
    let (mut terminal, mut pixels) = bound(0, 0);
    assert!(terminal.is_wf());
    assert!(terminal.covers(&pixels));
    // Every column is at the right edge and every row below the bottom.
    terminal.put_char(&mut pixels, 'a', FG, BG);
    assert_eq!(cursor(&terminal), (8, -16));
    terminal.put_char(&mut pixels, '\t', FG, BG);
    assert_eq!(cursor(&terminal), (32, -16));
    terminal.clear(&mut pixels);
    assert!(pixels.is_empty());
    assert!(terminal.is_wf());
}

#[test]
fn write_str_puts_every_character() {
    let (mut terminal, mut pixels) = bound(32, 32);
    let (mut other, mut expected) = bound(32, 32);
    assert_eq!(write_str(&mut terminal, &mut pixels, "ab\tc\nd\x08e", 0xF0, 0x0B), 8);
    for c in "ab\tc\nd\x08e".chars() {
        other.put_char(&mut expected, c, 0xF0, 0x0B);
    }
    assert_eq!(cursor(&terminal), cursor(&other));
    assert_eq!(cursor(&terminal), (8, 16));
    assert_eq!(pixels, expected);
    assert_eq!(write_str(&mut terminal, &mut pixels, "", 0xF0, 0x0B), 0);
    assert_eq!(pixels, expected);
}
