//! The kernel terminal: a text cursor over a framebuffer.
//!
//! The cursor is kept in pixels. A character cell is one glyph wide and one
//! glyph high; a cell that does not lie wholly on the screen is not rendered,
//! though the cursor moves as if it were.

use super::draw_char;
use super::fill_screen;
use super::font;
use super::spec_cell_visible;
use super::spec_draw_char;
use super::Color;
use super::Rgb;
use crate::drivers::vbe::Framebuffer;
use vstd::prelude::*;

verus! {

/// Tabulation width, in character cells.
pub const TAB_WIDTH: u32 = 4;

/// Whether `c` has a glyph of its own: a space or a graphic ASCII character.
pub open spec fn spec_is_printable(c: char) -> bool {
    ' ' <= c <= '~'
}

/// Tells whether `c` has a glyph of its own.
pub fn is_printable(c: char) -> (printable: bool)
    ensures
        printable == spec_is_printable(c),
{
    ' ' <= c && c <= '~'
}

/// The screen after its content moved up by `shift` pixels of the pixel slice:
/// what moves in from below the end is zero.
pub open spec fn spec_scrolled(pixels: Seq<Rgb>, shift: int) -> Seq<Rgb> {
    Seq::new(
        pixels.len(),
        |i: int|
            if i + shift < pixels.len() {
                pixels[i + shift]
            } else {
                0
            },
    )
}

/// Kernel terminal.
pub struct Terminal {
    /// Geometry of the screen, once bound.
    fb: Option<Framebuffer>,
    /// Screen height.
    height: i32,
    /// Screen width.
    width: i32,
    /// X position of the cursor.
    x_pos: i32,
    /// Y position of the cursor.
    y_pos: i32,
    /// Foreground color.
    pub fg: Rgb,
    /// Background color.
    pub bg: Rgb,
}

/// The screen geometry and cursor of a terminal.
pub struct TerminalView {
    /// Geometry of the screen, once bound.
    pub fb: Option<Framebuffer>,
    /// Screen width in pixels.
    pub width: int,
    /// Screen height in pixels.
    pub height: int,
    /// Column of the cursor, in pixels.
    pub x: int,
    /// Row of the cursor, in pixels.
    pub y: int,
    /// Foreground color.
    pub fg: Rgb,
    /// Background color.
    pub bg: Rgb,
}

impl TerminalView {
    /// The terminal is unbound, or bound to a usable framebuffer with the
    /// cursor no further right or down than one call can have left it.
    pub open spec fn wf(self) -> bool {
        match self.fb {
            None => true,
            Some(fb) => {
                &&& fb.spec_is_usable()
                &&& self.width == fb.width
                &&& self.height == fb.height
                &&& self.x <= self.width + TAB_WIDTH * font::CHAR_WIDTH
                &&& self.y <= self.height
            },
        }
    }

    /// `pixels` is the content of the screen this terminal is bound to.
    pub open spec fn covers(self, pixels: Seq<Rgb>) -> bool {
        self.fb matches Some(fb) ==> fb.spec_covers(pixels)
    }

    /// The same terminal with the cursor at `(x, y)`.
    pub open spec fn at(self, x: int, y: int) -> TerminalView {
        TerminalView { x, y, ..self }
    }

    /// The line wrap that precedes every character: a cursor at or beyond the
    /// right edge goes to the start of the next row.
    pub open spec fn wrapped(self) -> TerminalView {
        if self.x >= self.width {
            self.at(0, self.y + font::CHAR_HEIGHT)
        } else {
            self
        }
    }

    /// The cursor after `c` was handled, before any scrolling.
    ///
    /// A backspace steps one cell back and then, unless both coordinates
    /// differ from zero, goes to the right edge of the row above.
    pub open spec fn moved(self, c: char) -> TerminalView {
        let s = self.wrapped();
        if c == '\n' {
            s.at(0, s.y + font::CHAR_HEIGHT)
        } else if c == '\t' {
            s.at(s.x + TAB_WIDTH * font::CHAR_WIDTH, s.y)
        } else if c == '\x08' {
            if !(s.x - font::CHAR_WIDTH != 0 && s.y != 0) {
                s.at(s.width, s.y - font::CHAR_HEIGHT)
            } else {
                s.at(s.x - font::CHAR_WIDTH, s.y)
            }
        } else if spec_is_printable(c) {
            s.at(s.x + font::CHAR_WIDTH, s.y)
        } else {
            s
        }
    }

    /// Number of glyph rows by which the cursor is past the bottom edge.
    pub open spec fn rows_past_bottom(self) -> int {
        if self.y >= self.height {
            (self.y - self.height) / (font::CHAR_HEIGHT as int) + 1
        } else {
            0
        }
    }

    /// The terminal after `c` was put: the cursor moves, and comes back up by
    /// the rows that were scrolled out.
    pub open spec fn put_char(self, c: char) -> TerminalView {
        if self.fb is None {
            self
        } else {
            let m = self.moved(c);
            m.at(m.x, m.y - font::CHAR_HEIGHT * m.rows_past_bottom())
        }
    }

    /// Whether the cursor arithmetic for `c` stays within an `i32`. Only a
    /// backspace far left of or above the screen can fail this.
    pub open spec fn accepts(self, c: char) -> bool {
        self.fb is Some && c == '\x08' ==> {
            let s = self.wrapped();
            &&& s.x - font::CHAR_WIDTH >= i32::MIN
            &&& !(s.x - font::CHAR_WIDTH != 0 && s.y != 0) ==> s.y - font::CHAR_HEIGHT >= i32::MIN
        }
    }

    /// The screen after the glyph of `c` was drawn in the cell at `(x, y)`, if
    /// that cell is visible.
    pub open spec fn draw(self, pixels: Seq<Rgb>, c: char, x: int, y: int, fg: Rgb, bg: Rgb) -> Seq<
        Rgb,
    > {
        if spec_cell_visible(self.width, self.height, x, y) {
            spec_draw_char(pixels, self.width, c, x, y, fg, bg, true)
        } else {
            pixels
        }
    }

    /// The screen after `count` spaces were drawn from the cursor rightwards.
    pub open spec fn spaces(self, pixels: Seq<Rgb>, count: nat, fg: Rgb, bg: Rgb) -> Seq<Rgb>
        decreases count,
    {
        if count == 0 {
            pixels
        } else {
            self.at(self.x + font::CHAR_WIDTH, self.y).spaces(
                self.draw(pixels, ' ', self.x, self.y, fg, bg),
                (count - 1) as nat,
                fg,
                bg,
            )
        }
    }

    /// The screen after `c` was rendered, before any scrolling.
    pub open spec fn painted(self, pixels: Seq<Rgb>, c: char, fg: Rgb, bg: Rgb) -> Seq<Rgb> {
        let s = self.wrapped();
        if c == '\n' {
            pixels
        } else if c == '\t' {
            s.spaces(pixels, TAB_WIDTH as nat, fg, bg)
        } else if c == '\x08' {
            let m = self.moved(c);
            s.draw(pixels, ' ', m.x, m.y, fg, bg)
        } else if spec_is_printable(c) {
            s.draw(pixels, c, s.x, s.y, fg, bg)
        } else {
            pixels
        }
    }

    /// The screen after `c` was put: rendered, then moved up by the rows that
    /// the cursor was past the bottom edge.
    pub open spec fn shown(self, pixels: Seq<Rgb>, c: char, fg: Rgb, bg: Rgb) -> Seq<Rgb> {
        if self.fb is None {
            pixels
        } else {
            let rows = self.moved(c).rows_past_bottom();
            let painted = self.painted(pixels, c, fg, bg);
            if rows > 0 {
                spec_scrolled(painted, rows * font::CHAR_HEIGHT * self.width)
            } else {
                painted
            }
        }
    }

    /// The terminal and the screen after the first `count` characters of
    /// `text` were put, one after the other.
    pub open spec fn written(
        self,
        pixels: Seq<Rgb>,
        text: Seq<char>,
        count: nat,
        fg: Rgb,
        bg: Rgb,
    ) -> (TerminalView, Seq<Rgb>)
        decreases count,
    {
        if count == 0 {
            (self, pixels)
        } else {
            let (terminal, screen) = self.written(pixels, text, (count - 1) as nat, fg, bg);
            (terminal.put_char(text[count - 1]), terminal.shown(screen, text[count - 1], fg, bg))
        }
    }

    /// Whether each of the first `count` characters of `text` is accepted
    /// when its turn comes.
    pub open spec fn accepts_all(
        self,
        pixels: Seq<Rgb>,
        text: Seq<char>,
        count: nat,
        fg: Rgb,
        bg: Rgb,
    ) -> bool
        decreases count,
    {
        count > 0 ==> {
            &&& self.accepts_all(pixels, text, (count - 1) as nat, fg, bg)
            &&& self.written(pixels, text, (count - 1) as nat, fg, bg).0.accepts(text[count - 1])
        }
    }
}

/// Putting a character leaves the screen as large as it was.
pub proof fn lemma_shown_len(s: TerminalView, pixels: Seq<Rgb>, c: char, fg: Rgb, bg: Rgb)
    ensures
        s.painted(pixels, c, fg, bg).len() == pixels.len(),
        s.shown(pixels, c, fg, bg).len() == pixels.len(),
{
    let w = s.wrapped();
    assert(w.spaces(pixels, 4, fg, bg).len() == pixels.len()) by {
        reveal_with_fuel(TerminalView::spaces, 5);
    }
}

/// When a newline takes the cursor exactly one glyph row past the bottom edge,
/// the screen moves up by one glyph row: every row takes the content of the
/// row one glyph height below it, the top glyph row is lost, and the bottom
/// glyph row is black. The cursor stays on the row it was on.
pub proof fn lemma_newline_scrolls_one_row(s: TerminalView, pixels: Seq<Rgb>, fg: Rgb, bg: Rgb)
    requires
        s.wf(),
        s.fb is Some,
        s.covers(pixels),
        s.moved('\n').rows_past_bottom() == 1,
    ensures
        s.put_char('\n').x == 0,
        s.put_char('\n').y == s.wrapped().y,
        s.shown(pixels, '\n', fg, bg).len() == pixels.len(),
        forall|x: int, y: int|
            0 <= x < s.width && 0 <= y < s.height - font::CHAR_HEIGHT ==> s.shown(
                pixels,
                '\n',
                fg,
                bg,
            )[#[trigger] s.fb->0.spec_index(x, y)] == pixels[s.fb->0.spec_index(
                x,
                y + font::CHAR_HEIGHT,
            )],
        forall|x: int, y: int|
            0 <= x < s.width && 0 <= y < s.height && s.height - font::CHAR_HEIGHT <= y ==> s.shown(
                pixels,
                '\n',
                fg,
                bg,
            )[#[trigger] s.fb->0.spec_index(x, y)] == Color::Black.spec_value(),
{
    let fb = s.fb->0;
    let w = s.width;
    let h = s.height;
    let after = s.shown(pixels, '\n', fg, bg);
    assert(after == spec_scrolled(pixels, 16 * w));
    assert forall|x: int, y: int| 0 <= x < w && 0 <= y < h - 16 implies after[#[trigger] fb.spec_index(
        x,
        y,
    )] == pixels[fb.spec_index(x, y + 16)] by {
        super::lemma_index_in_bounds(w, h, x, y);
        super::lemma_index_in_bounds(w, h, x, y + 16);
        assert((y + 16) * w + x == y * w + x + 16 * w) by (nonlinear_arith);
    }
    assert forall|x: int, y: int| 0 <= x < w && 0 <= y < h && h - 16 <= y implies after[#[trigger] fb.spec_index(
        x,
        y,
    )] == Color::Black.spec_value() by {
        super::lemma_index_in_bounds(w, h, x, y);
        assert(y * w + x + 16 * w >= w * h) by (nonlinear_arith)
            requires
                0 <= x,
                h - 16 <= y,
                0 <= w,
        ;
    }
}

/// A backspace steps one cell back. If that puts the cursor on column 0, or
/// if the cursor is on row 0, it goes on to the right edge of the row above;
/// so from the second column of a row below the top one the cursor lands at
/// the right edge one row up, and from the first column it lands left of the
/// screen.
pub proof fn lemma_backspace(s: TerminalView)
    requires
        s.wf(),
        s.fb is Some,
        s.x < s.width,
        s.y < s.height,
    ensures
        s.x == font::CHAR_WIDTH || s.y == 0 ==> s.put_char('\x08').x == s.width && s.put_char(
            '\x08',
        ).y == s.y - font::CHAR_HEIGHT,
        s.x != font::CHAR_WIDTH && s.y != 0 ==> s.put_char('\x08').x == s.x - font::CHAR_WIDTH
            && s.put_char('\x08').y == s.y,
{
}

impl View for Terminal {
    type V = TerminalView;

    closed spec fn view(&self) -> TerminalView {
        TerminalView {
            fb: self.fb,
            width: self.width as int,
            height: self.height as int,
            x: self.x_pos as int,
            y: self.y_pos as int,
            fg: self.fg,
            bg: self.bg,
        }
    }
}

impl Default for Terminal {
    /// A terminal that is bound to no screen.
    fn default() -> (terminal: Self)
        ensures
            terminal@ == (TerminalView {
                fb: None,
                width: 0,
                height: 0,
                x: 0,
                y: 0,
                fg: 0,
                bg: 0,
            }),
    {
        Terminal { fb: None, height: 0, width: 0, x_pos: 0, y_pos: 0, fg: 0, bg: 0 }
    }
}

impl Terminal {
    /// Moves the screen content up by `rows` glyph rows and clears what comes
    /// in at the bottom.
    fn scroll(fb: &Framebuffer, pixels: &mut [Rgb], rows: usize)
        requires
            fb.spec_covers(old(pixels)@),
            rows <= 4,
        ensures
            final(pixels)@ == spec_scrolled(old(pixels)@, rows * font::CHAR_HEIGHT * fb.width),
    {
        let total: usize = pixels.len();
        let lines: usize = rows * font::CHAR_HEIGHT;
        let ghost before = pixels@;
        let ghost exact: int = rows * 16 * fb.width;
        // Number of pixels that leave at the top.
        let shift: usize = if lines >= fb.height as usize {
            assert(exact >= total) by (nonlinear_arith)
                requires
                    exact == rows * 16 * fb.width,
                    total == fb.width * fb.height,
                    rows * 16 >= fb.height,
            ;
            total
        } else {
            assert(exact <= total) by (nonlinear_arith)
                requires
                    exact == rows * 16 * fb.width,
                    total == fb.width * fb.height,
                    0 <= rows * 16 < fb.height,
                    0 <= fb.width,
            ;
            assert(exact == lines * (fb.width as usize)) by (nonlinear_arith)
                requires
                    exact == rows * 16 * fb.width,
                    lines == rows * 16,
                    (fb.width as usize) == fb.width,
            ;
            lines * (fb.width as usize)
        };
        let kept: usize = total - shift;
        let mut i: usize = 0;
        while i < kept
            invariant
                i <= kept,
                kept == total - shift,
                shift <= total,
                total == before.len(),
                pixels@.len() == before.len(),
                forall|j: int| 0 <= j < i ==> pixels@[j] == before[j + shift],
                forall|j: int| i <= j < total ==> pixels@[j] == before[j],
            decreases kept - i,
        {
            let moved: Rgb = pixels[i + shift];
            pixels[i] = moved;
            i += 1;
        }
        while i < total
            invariant
                kept <= i <= total,
                kept == total - shift,
                total == before.len(),
                pixels@.len() == before.len(),
                forall|j: int| 0 <= j < kept ==> pixels@[j] == before[j + shift],
                forall|j: int| kept <= j < i ==> pixels@[j] == 0,
            decreases total - i,
        {
            pixels[i] = 0;
            i += 1;
        }
        assert(pixels@ =~= spec_scrolled(before, exact));
    }

    /// Draws the glyph of `c` in the cell at the cursor, if that cell is
    /// visible.
    fn draw_at_cursor(&self, fb: &Framebuffer, pixels: &mut [Rgb], c: char, fg: Rgb, bg: Rgb)
        requires
            fb.spec_covers(old(pixels)@),
            self.width == fb.width,
            self.height == fb.height,
            font::spec_has_glyph(c),
        ensures
            final(pixels)@ == self@.draw(old(pixels)@, c, self@.x, self@.y, fg, bg),
    {
        if self.x_pos >= 0 && self.y_pos >= 0 && self.x_pos <= self.width - font::CHAR_WIDTH as i32
            && self.y_pos <= self.height - font::CHAR_HEIGHT as i32 {
            draw_char(fb, pixels, c, self.x_pos as usize, self.y_pos as usize, fg, bg, true);
        }
    }

    /// The terminal is unbound, or bound to a usable framebuffer with the
    /// cursor where a call can have left it.
    pub open spec fn wf(&self) -> bool {
        self@.wf()
    }

    /// Binds the terminal to the screen that `fb` describes, with the cursor
    /// at the top left, white on black.
    pub fn init(&mut self, fb: Framebuffer)
        ensures
            final(self)@ == (TerminalView {
                fb: Some(fb),
                width: (fb.width as i32) as int,
                height: (fb.height as i32) as int,
                x: 0,
                y: 0,
                fg: Color::White.spec_value(),
                bg: Color::Black.spec_value(),
            }),
            fb.spec_is_usable() ==> final(self).wf(),
    {
        self.height = #[verifier::truncate] (fb.height as i32);
        self.width = #[verifier::truncate] (fb.width as i32);
        self.fb = Some(fb);
        self.x_pos = 0;
        self.y_pos = 0;
        self.fg = Color::White.value();
        self.bg = Color::Black.value();
    }

    /// The screen that the terminal is bound to, if it is bound.
    pub fn framebuffer(&self) -> (fb: Option<Framebuffer>)
        ensures
            fb == self@.fb,
    {
        self.fb
    }

    /// Screen width in pixels.
    pub fn width(&self) -> (width: i32)
        ensures
            width == self@.width,
    {
        self.width
    }

    /// Screen height in pixels.
    pub fn height(&self) -> (height: i32)
        ensures
            height == self@.height,
    {
        self.height
    }

    /// Column of the cursor, in pixels.
    pub fn x_pos(&self) -> (x: i32)
        ensures
            x == self@.x,
    {
        self.x_pos
    }

    /// Row of the cursor, in pixels.
    pub fn y_pos(&self) -> (y: i32)
        ensures
            y == self@.y,
    {
        self.y_pos
    }

    /// Tells whether the terminal is well formed.
    pub fn is_wf(&self) -> (wf: bool)
        ensures
            wf == self.wf(),
    {
        match self.fb {
            None => true,
            Some(fb) => {
                fb.is_usable() && self.width >= 0 && self.height >= 0 && self.width as u32
                    == fb.width && self.height as u32 == fb.height && self.x_pos <= self.width + 32
                    && self.y_pos <= self.height
            },
        }
    }

    /// Tells whether `pixels` has the size of the screen that the terminal is
    /// bound to.
    pub fn covers(&self, pixels: &[Rgb]) -> (covers: bool)
        requires
            self.wf(),
        ensures
            covers == self@.covers(pixels@),
    {
        match self.fb {
            None => true,
            Some(fb) => pixels.len() == fb.pixel_count(),
        }
    }

    /// Fills the screen with the background color. An unbound terminal leaves
    /// the pixels alone.
    pub fn clear(&self, pixels: &mut [Rgb])
        requires
            self@.covers(old(pixels)@),
        ensures
            final(pixels)@ == if self@.fb is Some {
                Seq::new(old(pixels)@.len(), |i: int| self@.bg)
            } else {
                old(pixels)@
            },
    {
        if let Some(fb) = &self.fb {
            fill_screen(fb, pixels, self.bg);
        }
    }

    /// Tells whether `put_char` can take `c` with the cursor where it is.
    pub fn accepts(&self, c: char) -> (ok: bool)
        requires
            self.wf(),
        ensures
            ok == self@.accepts(c),
    {
        if self.fb.is_none() || c != '\x08' {
            return true;
        }
        let x: i32 = if self.x_pos >= self.width {
            0
        } else {
            self.x_pos
        };
        if x < i32::MIN + 8 {
            return false;
        }
        if self.x_pos >= self.width {
            // The row below the cursor's is never out of range.
            return true;
        }
        if x - 8 == 0 || self.y_pos == 0 {
            self.y_pos >= i32::MIN + 16
        } else {
            true
        }
    }

    /// Prints `c` at the cursor in the given colors.
    ///
    /// A cursor at or beyond the right edge first wraps to the next row. Then
    /// a newline starts the next row, a tab draws four spaces, a backspace
    /// steps back and blanks the cell it lands on, a space or graphic
    /// character is drawn and the cursor advances; any other character does
    /// nothing. At last, if the cursor is below the screen, the content
    /// scrolls up until it is not. An unbound terminal does nothing at all.
    pub fn put_char(&mut self, pixels: &mut [Rgb], c: char, fg: Rgb, bg: Rgb)
        requires
            old(self).wf(),
            old(self)@.covers(old(pixels)@),
            old(self)@.accepts(c),
        ensures
            final(self)@ == old(self)@.put_char(c),
            final(pixels)@ == old(self)@.shown(old(pixels)@, c, fg, bg),
            final(self).wf(),
            final(self)@.covers(final(pixels)@),
    {
        proof {
            lemma_shown_len(self@, pixels@, c, fg, bg);
        }
        if let Some(fb) = self.fb {
            let ghost before = pixels@;
            if self.x_pos >= self.width {
                self.x_pos = 0;
                self.y_pos += font::CHAR_HEIGHT as i32;
            }
            let ghost s = self@;
            if c == '\n' {
                // Handle new line character.
                self.y_pos += font::CHAR_HEIGHT as i32;
                self.x_pos = 0;
            } else if c == '\t' {
                // Handle tab character.
                let mut i: u32 = 0;
                while i < TAB_WIDTH
                    invariant
                        i <= TAB_WIDTH,
                        self.fb == Some(fb),
                        fb.spec_is_usable(),
                        fb.spec_covers(pixels@),
                        self.width == fb.width,
                        self.height == fb.height,
                        self@ == s.at(s.x + 8 * i, s.y),
                        s.x <= s.width,
                        s.spaces(before, 4, fg, bg) == self@.spaces(
                            pixels@,
                            (4 - i) as nat,
                            fg,
                            bg,
                        ),
                    decreases TAB_WIDTH - i,
                {
                    self.draw_at_cursor(&fb, pixels, ' ', fg, bg);
                    self.x_pos += font::CHAR_WIDTH as i32;
                    i += 1;
                }
            } else if c == '\x08' {
                // Handle backspace character.
                self.x_pos -= font::CHAR_WIDTH as i32;
                if !(self.x_pos != 0 && self.y_pos != 0) {
                    self.y_pos -= font::CHAR_HEIGHT as i32;
                    self.x_pos = self.width;
                }
                self.draw_at_cursor(&fb, pixels, ' ', fg, bg);
            } else if is_printable(c) {
                // Handle other characters.
                self.draw_at_cursor(&fb, pixels, c, fg, bg);
                self.x_pos += font::CHAR_WIDTH as i32;
            }
            // Scroll screen.
            if self.y_pos >= self.height {
                let tmp: i32 = self.y_pos - self.height;
                let rows: i32 = tmp / font::CHAR_HEIGHT as i32 + 1;
                Self::scroll(&fb, pixels, rows as usize);
                self.y_pos -= rows * font::CHAR_HEIGHT as i32;
            }
        }
    }
}

} // verus!
