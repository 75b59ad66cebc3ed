//! VBE (VESA BIOS Extensions) framebuffer description.

use vstd::prelude::*;

verus! {

/// Largest width or height, in pixels, that the text cursor can range over:
/// a cursor coordinate is an `i32` and runs at most 32 pixels past an edge.
pub const MAX_EXTENT: u32 = 0x7FFF_FFDF;

/// Geometry of a linear framebuffer.
#[derive(Debug, Clone, Copy, PartialEq, Eq, Structural)]
pub struct Framebuffer {
    /// Physical address of the first pixel.
    pub addr: u32,
    /// Number of bytes in a single row.
    pub pitch: u32,
    /// Pixels per row.
    pub width: u32,
    /// Number of rows.
    pub height: u32,
    /// Bits per pixel.
    pub bpp: u8,
}

impl Default for Framebuffer {
    fn default() -> (fb: Self)
        ensures
            fb.addr == 0,
            fb.pitch == 0,
            fb.width == 0,
            fb.height == 0,
            fb.bpp == 0,
    {
        Framebuffer { addr: 0, pitch: 0, width: 0, height: 0, bpp: 0 }
    }
}

impl Framebuffer {
    /// Number of pixels on the screen.
    pub open spec fn spec_pixel_count(&self) -> int {
        self.width * self.height
    }

    /// The framebuffer holds 32-bit pixels in rows that follow one another
    /// without padding, and its size fits the machine.
    pub open spec fn spec_is_usable(&self) -> bool {
        &&& self.bpp == 32
        &&& self.pitch == 4 * self.width
        &&& self.width <= MAX_EXTENT
        &&& self.height <= MAX_EXTENT
        &&& self.spec_pixel_count() <= usize::MAX
    }

    /// `pixels` is the content of this framebuffer, row after row.
    pub open spec fn spec_covers(&self, pixels: Seq<u32>) -> bool {
        pixels.len() == self.spec_pixel_count()
    }

    /// Index of the pixel in column `x` of row `y`.
    pub open spec fn spec_index(&self, x: int, y: int) -> int {
        y * self.width + x
    }

    /// Address of the first pixel.
    pub fn addr(&self) -> (address: usize)
        ensures
            address == self.addr,
    {
        self.addr as usize
    }

    /// Tells whether the terminal can draw on this framebuffer.
    pub fn is_usable(&self) -> (usable: bool)
        ensures
            usable == self.spec_is_usable(),
    {
        if self.bpp != 32 || self.width > MAX_EXTENT || self.height > MAX_EXTENT {
            return false;
        }
        if self.pitch as u64 != 4 * (self.width as u64) {
            return false;
        }
        let count: u64 = self.pixel_count_wide();
        count <= usize::MAX as u64
    }

    /// Number of pixels on the screen.
    pub fn pixel_count(&self) -> (count: usize)
        requires
            self.spec_is_usable(),
        ensures
            count == self.spec_pixel_count(),
    {
        self.pixel_count_wide() as usize
    }

    fn pixel_count_wide(&self) -> (count: u64)
        ensures
            count == self.spec_pixel_count(),
    {
        assert(self.width * self.height <= 0xFFFF_FFFF * 0xFFFF_FFFF) by (nonlinear_arith)
            requires
                0 <= self.width <= 0xFFFF_FFFF,
                0 <= self.height <= 0xFFFF_FFFF,
        ;
        (self.width as u64) * (self.height as u64)
    }
}

} // verus!
