//! Kernel graphics: pixels, fills and glyphs on a linear framebuffer.
//!
//! The screen content is a slice of 32-bit pixels, row after row; the
//! [`Framebuffer`] gives its geometry. The pixel in column `x` of row `y` is
//! the element `y * width + x`.

pub mod font;
pub mod terminal;

use crate::drivers::vbe::Framebuffer;
use crate::multiboot::MultibootInfo;
use vstd::arithmetic::div_mod::lemma_fundamental_div_mod;
use vstd::arithmetic::div_mod::lemma_fundamental_div_mod_converse;
use vstd::prelude::*;

verus! {

/// RGB color: red in bits 16..24, green in bits 8..16, blue in bits 0..8.
pub type Rgb = u32;

/// The color with the given components.
pub open spec fn spec_rgb(red: u8, green: u8, blue: u8) -> Rgb {
    ((red as u32) << 16) | ((green as u32) << 8) | (blue as u32)
}

/// Makes an RGB color from its red, green and blue components.
pub fn rgb(red: u8, green: u8, blue: u8) -> (color: Rgb)
    ensures
        color == spec_rgb(red, green, blue),
{
    ((red as u32) << 16) | ((green as u32) << 8) | (blue as u32)
}

/// Standard colors.
#[derive(Debug, Clone, Copy, PartialEq, Eq, Structural)]
pub enum Color {
    White,
    Black,
    Red,
    Green,
    Blue,
    Gray,
    Yellow,
    Orange,
}

impl Color {
    /// The RGB value of the color.
    pub open spec fn spec_value(self) -> Rgb {
        match self {
            Color::White => 0xFF_FF_FF,
            Color::Black => 0x00_00_00,
            Color::Red => 0xFF_00_00,
            Color::Green => 0x00_FF_00,
            Color::Blue => 0x00_00_FF,
            Color::Gray => 0xBF_BF_BF,
            Color::Yellow => 0xFF_FF_44,
            Color::Orange => 0xFF_70_00,
        }
    }

    /// The RGB value of the color.
    pub fn value(self) -> (color: Rgb)
        ensures
            color == self.spec_value(),
    {
        match self {
            Color::White => 0xFF_FF_FF,
            Color::Black => 0x00_00_00,
            Color::Red => 0xFF_00_00,
            Color::Green => 0x00_FF_00,
            Color::Blue => 0x00_00_FF,
            Color::Gray => 0xBF_BF_BF,
            Color::Yellow => 0xFF_FF_44,
            Color::Orange => 0xFF_70_00,
        }
    }
}

/// The framebuffer that the boot loader set up: its address is the low 32
/// bits of the address that the boot loader gives.
pub open spec fn spec_framebuffer(boot_info: MultibootInfo) -> Framebuffer {
    Framebuffer {
        addr: boot_info.framebuffer_addr as u32,
        pitch: boot_info.framebuffer_pitch,
        width: boot_info.framebuffer_width,
        height: boot_info.framebuffer_height,
        bpp: boot_info.framebuffer_bpp,
    }
}

/// Extracts the framebuffer description from the boot information.
pub fn get_framebuffer(boot_info: &MultibootInfo) -> (fb: Framebuffer)
    ensures
        fb == spec_framebuffer(*boot_info),
{
    Framebuffer {
        addr: #[verifier::truncate] (boot_info.framebuffer_addr as u32),
        pitch: boot_info.framebuffer_pitch,
        width: boot_info.framebuffer_width,
        height: boot_info.framebuffer_height,
        bpp: boot_info.framebuffer_bpp,
    }
}

/// Initializes kernel graphics: finds the framebuffer that the boot loader
/// set up.
pub fn init(boot_info: &MultibootInfo) -> (fb: Framebuffer)
    ensures
        fb == spec_framebuffer(*boot_info),
{
    get_framebuffer(boot_info)
}

/// Whether the pixel `(px, py)` lies in the glyph cell whose top left corner is
/// `(x, y)`.
pub open spec fn spec_in_cell(x: int, y: int, px: int, py: int) -> bool {
    x <= px < x + font::CHAR_WIDTH && y <= py < y + font::CHAR_HEIGHT
}

/// Whether the glyph cell whose top left corner is `(x, y)` lies wholly on a
/// screen of `width` by `height` pixels.
pub open spec fn spec_cell_visible(width: int, height: int, x: int, y: int) -> bool {
    0 <= x && x + font::CHAR_WIDTH <= width && 0 <= y && y + font::CHAR_HEIGHT <= height
}

/// The pixel `i` of a screen `width` pixels wide after the glyph of `c` was drawn
/// with its top left corner at `(x, y)`: inside the cell a set glyph pixel takes
/// `fg`, a clear one takes `bg` if `is_bg` holds and stays as it was if not;
/// outside the cell nothing changes.
pub open spec fn spec_drawn_pixel(
    before: Seq<Rgb>,
    width: int,
    c: char,
    x: int,
    y: int,
    fg: Rgb,
    bg: Rgb,
    is_bg: bool,
    i: int,
) -> Rgb {
    let px = i % width;
    let py = i / width;
    if spec_in_cell(x, y, px, py) {
        if font::spec_glyph_pixel(c, py - y, px - x) {
            fg
        } else if is_bg {
            bg
        } else {
            before[i]
        }
    } else {
        before[i]
    }
}

/// The screen after the glyph of `c` was drawn with its top left corner at
/// `(x, y)`.
pub open spec fn spec_draw_char(
    before: Seq<Rgb>,
    width: int,
    c: char,
    x: int,
    y: int,
    fg: Rgb,
    bg: Rgb,
    is_bg: bool,
) -> Seq<Rgb> {
    Seq::new(before.len(), |i: int| spec_drawn_pixel(before, width, c, x, y, fg, bg, is_bg, i))
}

/// A pixel inside the screen has an index inside the pixel slice.
pub proof fn lemma_index_in_bounds(width: int, height: int, px: int, py: int)
    requires
        0 <= px < width,
        0 <= py < height,
    ensures
        0 <= py * width + px < width * height,
{
    assert(py * width + px < width * height) by (nonlinear_arith)
        requires
            0 <= px < width,
            0 <= py < height,
    ;
    assert(0 <= py * width) by (nonlinear_arith)
        requires
            0 <= py,
            0 < width,
    ;
}

/// The index of a pixel gives its row and column back.
pub proof fn lemma_index_split(width: int, px: int, py: int)
    requires
        0 <= px < width,
    ensures
        (py * width + px) / width == py,
        (py * width + px) % width == px,
{
    lemma_fundamental_div_mod_converse(py * width + px, width, py, px);
}

/// Puts a pixel on the screen.
pub fn put_pixel(fb: &Framebuffer, pixels: &mut [Rgb], x: u32, y: u32, color: Rgb)
    requires
        fb.spec_covers(old(pixels)@),
        x < fb.width,
        y < fb.height,
    ensures
        final(pixels)@ == old(pixels)@.update(fb.spec_index(x as int, y as int), color),
{
    let total_pixels: usize = pixels.len();
    proof {
        lemma_index_in_bounds(fb.width as int, fb.height as int, x as int, y as int);
        assert(0 <= (y as int) * (fb.width as int)) by (nonlinear_arith);
    }
    let pos: usize = (y as usize) * (fb.width as usize) + (x as usize);
    pixels[pos] = color;
}

/// Fills the screen with one color.
pub fn fill_screen(fb: &Framebuffer, pixels: &mut [Rgb], color: Rgb)
    requires
        fb.spec_covers(old(pixels)@),
    ensures
        final(pixels)@ == Seq::new(old(pixels)@.len(), |i: int| color),
{
    let total_pixels: usize = pixels.len();
    let mut i: usize = 0;
    // Four pixels at once.
    while total_pixels - i >= 4
        invariant
            i <= total_pixels,
            total_pixels == pixels@.len(),
            pixels@.len() == old(pixels)@.len(),
            forall|j: int| 0 <= j < i ==> pixels@[j] == color,
        decreases total_pixels - i,
    {
        pixels[i] = color;
        pixels[i + 1] = color;
        pixels[i + 2] = color;
        pixels[i + 3] = color;
        i += 4;
    }
    // The remaining pixels.
    while i < total_pixels
        invariant
            i <= total_pixels,
            total_pixels == pixels@.len(),
            pixels@.len() == old(pixels)@.len(),
            forall|j: int| 0 <= j < i ==> pixels@[j] == color,
        decreases total_pixels - i,
    {
        pixels[i] = color;
        i += 1;
    }
    assert(pixels@ =~= Seq::new(old(pixels)@.len(), |i: int| color));
}

/// Whether `pixels` is what `draw_char` has made of `before` once the
/// scanlines above `cy` and, of the scanline `cy`, the columns left of `cx` are
/// done.
spec fn spec_draw_reached(
    pixels: Seq<Rgb>,
    before: Seq<Rgb>,
    width: int,
    c: char,
    x: int,
    y: int,
    fg: Rgb,
    bg: Rgb,
    is_bg: bool,
    cy: int,
    cx: int,
) -> bool {
    &&& pixels.len() == before.len()
    &&& forall|i: int|
        0 <= i < before.len() ==> #[trigger] pixels[i] == (if i / width < y + cy || (i / width == y
            + cy && i % width < x + cx) {
            spec_drawn_pixel(before, width, c, x, y, fg, bg, is_bg, i)
        } else {
            before[i]
        })
}

/// Writing one glyph pixel moves `draw_char` one column on.
proof fn lemma_draw_column(
    pixels: Seq<Rgb>,
    after: Seq<Rgb>,
    before: Seq<Rgb>,
    width: int,
    c: char,
    x: int,
    y: int,
    fg: Rgb,
    bg: Rgb,
    is_bg: bool,
    cy: int,
    cx: int,
)
    requires
        spec_draw_reached(pixels, before, width, c, x, y, fg, bg, is_bg, cy, cx),
        0 <= x,
        x + 8 <= width,
        0 <= y,
        0 <= cy < 16,
        0 <= cx < 8,
        0 <= (y + cy) * width + (x + cx) < before.len(),
        after == if font::spec_glyph_pixel(c, cy, cx) {
            pixels.update((y + cy) * width + (x + cx), fg)
        } else if is_bg {
            pixels.update((y + cy) * width + (x + cx), bg)
        } else {
            pixels
        },
    ensures
        spec_draw_reached(after, before, width, c, x, y, fg, bg, is_bg, cy, cx + 1),
{
    let target = (y + cy) * width + (x + cx);
    lemma_index_split(width, x + cx, y + cy);
    assert forall|i: int| 0 <= i < before.len() implies #[trigger] after[i] == (if i / width < y
        + cy || (i / width == y + cy && i % width < x + cx + 1) {
        spec_drawn_pixel(before, width, c, x, y, fg, bg, is_bg, i)
    } else {
        before[i]
    }) by {
        lemma_fundamental_div_mod(i, width);
        if i == target {
            assert(spec_in_cell(x, y, i % width, i / width));
        } else {
            assert(after[i] == pixels[i]);
            assert(!(i / width == y + cy && i % width == x + cx)) by (nonlinear_arith)
                requires
                    i != (y + cy) * width + (x + cx),
                    i == width * (i / width) + (i % width),
            ;
        }
    }
}

/// A finished scanline is the start of the next one.
proof fn lemma_draw_row(
    pixels: Seq<Rgb>,
    before: Seq<Rgb>,
    width: int,
    c: char,
    x: int,
    y: int,
    fg: Rgb,
    bg: Rgb,
    is_bg: bool,
    cy: int,
)
    requires
        spec_draw_reached(pixels, before, width, c, x, y, fg, bg, is_bg, cy, 8),
    ensures
        spec_draw_reached(pixels, before, width, c, x, y, fg, bg, is_bg, cy + 1, 0),
{
    assert forall|i: int| 0 <= i < before.len() implies #[trigger] pixels[i] == (if i / width < y
        + cy + 1 || (i / width == y + cy + 1 && i % width < x + 0) {
        spec_drawn_pixel(before, width, c, x, y, fg, bg, is_bg, i)
    } else {
        before[i]
    }) by {
        assert(!spec_in_cell(x, y, i % width, i / width) ==> spec_drawn_pixel(
            before,
            width,
            c,
            x,
            y,
            fg,
            bg,
            is_bg,
            i,
        ) == before[i]);
    }
}

/// Sixteen finished scanlines are the whole glyph.
proof fn lemma_draw_done(
    pixels: Seq<Rgb>,
    before: Seq<Rgb>,
    width: int,
    c: char,
    x: int,
    y: int,
    fg: Rgb,
    bg: Rgb,
    is_bg: bool,
)
    requires
        spec_draw_reached(pixels, before, width, c, x, y, fg, bg, is_bg, 16, 0),
    ensures
        pixels == spec_draw_char(before, width, c, x, y, fg, bg, is_bg),
{
    assert forall|i: int| 0 <= i < before.len() implies #[trigger] pixels[i] == spec_drawn_pixel(
        before,
        width,
        c,
        x,
        y,
        fg,
        bg,
        is_bg,
        i,
    ) by {
        assert(!spec_in_cell(x, y, i % width, i / width) ==> spec_drawn_pixel(
            before,
            width,
            c,
            x,
            y,
            fg,
            bg,
            is_bg,
            i,
        ) == before[i]);
    }
    assert(pixels =~= spec_draw_char(before, width, c, x, y, fg, bg, is_bg));
}

/// Draws the glyph of `c` with its top left corner at `(x, y)`.
///
/// A set glyph pixel is written in `fg`. A clear one is written in `bg` if
/// `is_bg` holds, and left untouched if not.
pub fn draw_char(
    fb: &Framebuffer,
    pixels: &mut [Rgb],
    c: char,
    x: usize,
    y: usize,
    fg: Rgb,
    bg: Rgb,
    is_bg: bool,
)
    requires
        fb.spec_covers(old(pixels)@),
        font::spec_has_glyph(c),
        spec_cell_visible(fb.width as int, fb.height as int, x as int, y as int),
    ensures
        final(pixels)@ == spec_draw_char(
            old(pixels)@,
            fb.width as int,
            c,
            x as int,
            y as int,
            fg,
            bg,
            is_bg,
        ),
{
    let width: usize = fb.width as usize;
    let total_pixels: usize = pixels.len();
    let ghost before = pixels@;
    let ghost w = fb.width as int;
    let mut cy: usize = 0;
    while cy < font::CHAR_HEIGHT
        invariant
            cy <= font::CHAR_HEIGHT,
            width == fb.width,
            w == fb.width,
            total_pixels == before.len(),
            fb.spec_covers(before),
            font::spec_has_glyph(c),
            spec_cell_visible(w, fb.height as int, x as int, y as int),
            spec_draw_reached(pixels@, before, w, c, x as int, y as int, fg, bg, is_bg, cy as int, 0),
        decreases font::CHAR_HEIGHT - cy,
    {
        // Read the entire row of pixels at once.
        let bits: u8 = font::glyph_row(c, cy);
        let mut cx: usize = 0;
        while cx < font::CHAR_WIDTH
            invariant
                cx <= font::CHAR_WIDTH,
                cy < font::CHAR_HEIGHT,
                width == fb.width,
                w == fb.width,
                total_pixels == before.len(),
                fb.spec_covers(before),
                bits == font::spec_glyph_row(c, cy as int),
                spec_cell_visible(w, fb.height as int, x as int, y as int),
                spec_draw_reached(
                    pixels@,
                    before,
                    w,
                    c,
                    x as int,
                    y as int,
                    fg,
                    bg,
                    is_bg,
                    cy as int,
                    cx as int,
                ),
            decreases font::CHAR_WIDTH - cx,
        {
            let set: bool = font::scanline_pixel(bits, cx);
            let ghost current = pixels@;
            proof {
                lemma_index_in_bounds(w, fb.height as int, (x + cx) as int, (y + cy) as int);
                assert(0 <= (y + cy) * w) by (nonlinear_arith)
                    requires
                        0 <= y + cy,
                        0 <= w,
                ;
            }
            if set || is_bg {
                let color: Rgb = if set {
                    fg
                } else {
                    bg
                };
                let pos: usize = (y + cy) * width + (x + cx);
                pixels[pos] = color;
            }
            proof {
                lemma_draw_column(
                    current,
                    pixels@,
                    before,
                    w,
                    c,
                    x as int,
                    y as int,
                    fg,
                    bg,
                    is_bg,
                    cy as int,
                    cx as int,
                );
            }
            cx += 1;
        }
        proof {
            lemma_draw_row(pixels@, before, w, c, x as int, y as int, fg, bg, is_bg, cy as int);
        }
        cy += 1;
    }
    proof {
        lemma_draw_done(pixels@, before, w, c, x as int, y as int, fg, bg, is_bg);
    }
}

} // verus!
