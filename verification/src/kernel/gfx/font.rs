//! The built-in bitmap font.
//!
//! Every glyph is eight pixels wide and sixteen high. A glyph is sixteen
//! bytes, one per scanline from the top; in a byte the most significant bit is
//! the leftmost pixel. The table holds the 128 ASCII code points in order;
//! those that do not print are blank.

use vstd::prelude::*;

verus! {

/// Width of a glyph in pixels.
pub const CHAR_WIDTH: usize = 8;

/// Height of a glyph in pixels.
pub const CHAR_HEIGHT: usize = 16;

/// Number of glyphs in the font.
pub const GLYPH_COUNT: usize = 128;

/// The scanlines of all glyphs, glyph after glyph.
pub const FONT: [u8; 2048] = [
    // 0x00
    0x00, 0x00, 0x00, 0x00, 0x00, 0x00, 0x00, 0x00, 0x00, 0x00, 0x00, 0x00, 0x00, 0x00, 0x00, 0x00,
    // 0x01
    0x00, 0x00, 0x00, 0x00, 0x00, 0x00, 0x00, 0x00, 0x00, 0x00, 0x00, 0x00, 0x00, 0x00, 0x00, 0x00,
    // 0x02
    0x00, 0x00, 0x00, 0x00, 0x00, 0x00, 0x00, 0x00, 0x00, 0x00, 0x00, 0x00, 0x00, 0x00, 0x00, 0x00,
    // 0x03
    0x00, 0x00, 0x00, 0x00, 0x00, 0x00, 0x00, 0x00, 0x00, 0x00, 0x00, 0x00, 0x00, 0x00, 0x00, 0x00,
    // 0x04
    0x00, 0x00, 0x00, 0x00, 0x00, 0x00, 0x00, 0x00, 0x00, 0x00, 0x00, 0x00, 0x00, 0x00, 0x00, 0x00,
    // 0x05
    0x00, 0x00, 0x00, 0x00, 0x00, 0x00, 0x00, 0x00, 0x00, 0x00, 0x00, 0x00, 0x00, 0x00, 0x00, 0x00,
    // 0x06
    0x00, 0x00, 0x00, 0x00, 0x00, 0x00, 0x00, 0x00, 0x00, 0x00, 0x00, 0x00, 0x00, 0x00, 0x00, 0x00,
    // 0x07
    0x00, 0x00, 0x00, 0x00, 0x00, 0x00, 0x00, 0x00, 0x00, 0x00, 0x00, 0x00, 0x00, 0x00, 0x00, 0x00,
    // 0x08
    0x00, 0x00, 0x00, 0x00, 0x00, 0x00, 0x00, 0x00, 0x00, 0x00, 0x00, 0x00, 0x00, 0x00, 0x00, 0x00,
    // 0x09
    0x00, 0x00, 0x00, 0x00, 0x00, 0x00, 0x00, 0x00, 0x00, 0x00, 0x00, 0x00, 0x00, 0x00, 0x00, 0x00,
    // 0x0A
    0x00, 0x00, 0x00, 0x00, 0x00, 0x00, 0x00, 0x00, 0x00, 0x00, 0x00, 0x00, 0x00, 0x00, 0x00, 0x00,
    // 0x0B
    0x00, 0x00, 0x00, 0x00, 0x00, 0x00, 0x00, 0x00, 0x00, 0x00, 0x00, 0x00, 0x00, 0x00, 0x00, 0x00,
    // 0x0C
    0x00, 0x00, 0x00, 0x00, 0x00, 0x00, 0x00, 0x00, 0x00, 0x00, 0x00, 0x00, 0x00, 0x00, 0x00, 0x00,
    // 0x0D
    0x00, 0x00, 0x00, 0x00, 0x00, 0x00, 0x00, 0x00, 0x00, 0x00, 0x00, 0x00, 0x00, 0x00, 0x00, 0x00,
    // 0x0E
    0x00, 0x00, 0x00, 0x00, 0x00, 0x00, 0x00, 0x00, 0x00, 0x00, 0x00, 0x00, 0x00, 0x00, 0x00, 0x00,
    // 0x0F
    0x00, 0x00, 0x00, 0x00, 0x00, 0x00, 0x00, 0x00, 0x00, 0x00, 0x00, 0x00, 0x00, 0x00, 0x00, 0x00,
    // 0x10
    0x00, 0x00, 0x00, 0x00, 0x00, 0x00, 0x00, 0x00, 0x00, 0x00, 0x00, 0x00, 0x00, 0x00, 0x00, 0x00,
    // 0x11
    0x00, 0x00, 0x00, 0x00, 0x00, 0x00, 0x00, 0x00, 0x00, 0x00, 0x00, 0x00, 0x00, 0x00, 0x00, 0x00,
    // 0x12
    0x00, 0x00, 0x00, 0x00, 0x00, 0x00, 0x00, 0x00, 0x00, 0x00, 0x00, 0x00, 0x00, 0x00, 0x00, 0x00,
    // 0x13
    0x00, 0x00, 0x00, 0x00, 0x00, 0x00, 0x00, 0x00, 0x00, 0x00, 0x00, 0x00, 0x00, 0x00, 0x00, 0x00,
    // 0x14
    0x00, 0x00, 0x00, 0x00, 0x00, 0x00, 0x00, 0x00, 0x00, 0x00, 0x00, 0x00, 0x00, 0x00, 0x00, 0x00,
    // 0x15
    0x00, 0x00, 0x00, 0x00, 0x00, 0x00, 0x00, 0x00, 0x00, 0x00, 0x00, 0x00, 0x00, 0x00, 0x00, 0x00,
    // 0x16
    0x00, 0x00, 0x00, 0x00, 0x00, 0x00, 0x00, 0x00, 0x00, 0x00, 0x00, 0x00, 0x00, 0x00, 0x00, 0x00,
    // 0x17
    0x00, 0x00, 0x00, 0x00, 0x00, 0x00, 0x00, 0x00, 0x00, 0x00, 0x00, 0x00, 0x00, 0x00, 0x00, 0x00,
    // 0x18
    0x00, 0x00, 0x00, 0x00, 0x00, 0x00, 0x00, 0x00, 0x00, 0x00, 0x00, 0x00, 0x00, 0x00, 0x00, 0x00,
    // 0x19
    0x00, 0x00, 0x00, 0x00, 0x00, 0x00, 0x00, 0x00, 0x00, 0x00, 0x00, 0x00, 0x00, 0x00, 0x00, 0x00,
    // 0x1A
    0x00, 0x00, 0x00, 0x00, 0x00, 0x00, 0x00, 0x00, 0x00, 0x00, 0x00, 0x00, 0x00, 0x00, 0x00, 0x00,
    // 0x1B
    0x00, 0x00, 0x00, 0x00, 0x00, 0x00, 0x00, 0x00, 0x00, 0x00, 0x00, 0x00, 0x00, 0x00, 0x00, 0x00,
    // 0x1C
    0x00, 0x00, 0x00, 0x00, 0x00, 0x00, 0x00, 0x00, 0x00, 0x00, 0x00, 0x00, 0x00, 0x00, 0x00, 0x00,
    // 0x1D
    0x00, 0x00, 0x00, 0x00, 0x00, 0x00, 0x00, 0x00, 0x00, 0x00, 0x00, 0x00, 0x00, 0x00, 0x00, 0x00,
    // 0x1E
    0x00, 0x00, 0x00, 0x00, 0x00, 0x00, 0x00, 0x00, 0x00, 0x00, 0x00, 0x00, 0x00, 0x00, 0x00, 0x00,
    // 0x1F
    0x00, 0x00, 0x00, 0x00, 0x00, 0x00, 0x00, 0x00, 0x00, 0x00, 0x00, 0x00, 0x00, 0x00, 0x00, 0x00,
    // 0x20
    0x00, 0x00, 0x00, 0x00, 0x00, 0x00, 0x00, 0x00, 0x00, 0x00, 0x00, 0x00, 0x00, 0x00, 0x00, 0x00,
    // 0x21
    0x00, 0x10, 0x10, 0x10, 0x10, 0x10, 0x10, 0x10, 0x10, 0x10, 0x10, 0x00, 0x00, 0x10, 0x10, 0x00,
    // 0x22
    0x00, 0x28, 0x28, 0x28, 0x28, 0x28, 0x28, 0x00, 0x00, 0x00, 0x00, 0x00, 0x00, 0x00, 0x00, 0x00,
    // 0x23
    0x00, 0x28, 0x28, 0x28, 0x28, 0x7C, 0x7C, 0x28, 0x28, 0x7C, 0x7C, 0x28, 0x28, 0x28, 0x28, 0x00,
    // 0x24
    0x00, 0x10, 0x10, 0x3C, 0x3C, 0x50, 0x50, 0x38, 0x38, 0x14, 0x14, 0x78, 0x78, 0x10, 0x10, 0x00,
    // 0x25
    0x00, 0x60, 0x60, 0x64, 0x64, 0x08, 0x08, 0x10, 0x10, 0x20, 0x20, 0x4C, 0x4C, 0x0C, 0x0C, 0x00,
    // 0x26
    0x00, 0x30, 0x30, 0x48, 0x48, 0x50, 0x50, 0x20, 0x20, 0x54, 0x54, 0x48, 0x48, 0x34, 0x34, 0x00,
    // 0x27
    0x00, 0x10, 0x10, 0x10, 0x10, 0x20, 0x20, 0x00, 0x00, 0x00, 0x00, 0x00, 0x00, 0x00, 0x00, 0x00,
    // 0x28
    0x00, 0x08, 0x08, 0x10, 0x10, 0x20, 0x20, 0x20, 0x20, 0x20, 0x20, 0x10, 0x10, 0x08, 0x08, 0x00,
    // 0x29
    0x00, 0x20, 0x20, 0x10, 0x10, 0x08, 0x08, 0x08, 0x08, 0x08, 0x08, 0x10, 0x10, 0x20, 0x20, 0x00,
    // 0x2A
    0x00, 0x00, 0x00, 0x10, 0x10, 0x54, 0x54, 0x38, 0x38, 0x54, 0x54, 0x10, 0x10, 0x00, 0x00, 0x00,
    // 0x2B
    0x00, 0x00, 0x00, 0x10, 0x10, 0x10, 0x10, 0x7C, 0x7C, 0x10, 0x10, 0x10, 0x10, 0x00, 0x00, 0x00,
    // 0x2C
    0x00, 0x00, 0x00, 0x00, 0x00, 0x00, 0x00, 0x00, 0x00, 0x30, 0x30, 0x10, 0x10, 0x20, 0x20, 0x00,
    // 0x2D
    0x00, 0x00, 0x00, 0x00, 0x00, 0x00, 0x00, 0x7C, 0x7C, 0x00, 0x00, 0x00, 0x00, 0x00, 0x00, 0x00,
    // 0x2E
    0x00, 0x00, 0x00, 0x00, 0x00, 0x00, 0x00, 0x00, 0x00, 0x00, 0x00, 0x30, 0x30, 0x30, 0x30, 0x00,
    // 0x2F
    0x00, 0x00, 0x00, 0x04, 0x04, 0x08, 0x08, 0x10, 0x10, 0x20, 0x20, 0x40, 0x40, 0x00, 0x00, 0x00,
    // 0x30 0
    0x00, 0x38, 0x38, 0x44, 0x44, 0x4C, 0x4C, 0x54, 0x54, 0x64, 0x64, 0x44, 0x44, 0x38, 0x38, 0x00,
    // 0x31 1
    0x00, 0x10, 0x10, 0x30, 0x30, 0x10, 0x10, 0x10, 0x10, 0x10, 0x10, 0x10, 0x10, 0x38, 0x38, 0x00,
    // 0x32 2
    0x00, 0x38, 0x38, 0x44, 0x44, 0x04, 0x04, 0x08, 0x08, 0x10, 0x10, 0x20, 0x20, 0x7C, 0x7C, 0x00,
    // 0x33 3
    0x00, 0x7C, 0x7C, 0x08, 0x08, 0x10, 0x10, 0x08, 0x08, 0x04, 0x04, 0x44, 0x44, 0x38, 0x38, 0x00,
    // 0x34 4
    0x00, 0x08, 0x08, 0x18, 0x18, 0x28, 0x28, 0x48, 0x48, 0x7C, 0x7C, 0x08, 0x08, 0x08, 0x08, 0x00,
    // 0x35 5
    0x00, 0x7C, 0x7C, 0x40, 0x40, 0x78, 0x78, 0x04, 0x04, 0x04, 0x04, 0x44, 0x44, 0x38, 0x38, 0x00,
    // 0x36 6
    0x00, 0x18, 0x18, 0x20, 0x20, 0x40, 0x40, 0x78, 0x78, 0x44, 0x44, 0x44, 0x44, 0x38, 0x38, 0x00,
    // 0x37 7
    0x00, 0x7C, 0x7C, 0x04, 0x04, 0x08, 0x08, 0x10, 0x10, 0x20, 0x20, 0x20, 0x20, 0x20, 0x20, 0x00,
    // 0x38 8
    0x00, 0x38, 0x38, 0x44, 0x44, 0x44, 0x44, 0x38, 0x38, 0x44, 0x44, 0x44, 0x44, 0x38, 0x38, 0x00,
    // 0x39 9
    0x00, 0x38, 0x38, 0x44, 0x44, 0x44, 0x44, 0x3C, 0x3C, 0x04, 0x04, 0x08, 0x08, 0x30, 0x30, 0x00,
    // 0x3A
    0x00, 0x00, 0x00, 0x30, 0x30, 0x30, 0x30, 0x00, 0x00, 0x30, 0x30, 0x30, 0x30, 0x00, 0x00, 0x00,
    // 0x3B
    0x00, 0x00, 0x00, 0x30, 0x30, 0x30, 0x30, 0x00, 0x00, 0x30, 0x30, 0x10, 0x10, 0x20, 0x20, 0x00,
    // 0x3C
    0x00, 0x08, 0x08, 0x10, 0x10, 0x20, 0x20, 0x40, 0x40, 0x20, 0x20, 0x10, 0x10, 0x08, 0x08, 0x00,
    // 0x3D
    0x00, 0x00, 0x00, 0x00, 0x00, 0x7C, 0x7C, 0x00, 0x00, 0x7C, 0x7C, 0x00, 0x00, 0x00, 0x00, 0x00,
    // 0x3E
    0x00, 0x20, 0x20, 0x10, 0x10, 0x08, 0x08, 0x04, 0x04, 0x08, 0x08, 0x10, 0x10, 0x20, 0x20, 0x00,
    // 0x3F
    0x00, 0x38, 0x38, 0x44, 0x44, 0x04, 0x04, 0x08, 0x08, 0x10, 0x10, 0x00, 0x00, 0x10, 0x10, 0x00,
    // 0x40
    0x00, 0x38, 0x38, 0x44, 0x44, 0x04, 0x04, 0x34, 0x34, 0x54, 0x54, 0x54, 0x54, 0x38, 0x38, 0x00,
    // 0x41 A
    0x00, 0x38, 0x38, 0x44, 0x44, 0x44, 0x44, 0x44, 0x44, 0x7C, 0x7C, 0x44, 0x44, 0x44, 0x44, 0x00,
    // 0x42 B
    0x00, 0x78, 0x78, 0x44, 0x44, 0x44, 0x44, 0x78, 0x78, 0x44, 0x44, 0x44, 0x44, 0x78, 0x78, 0x00,
    // 0x43 C
    0x00, 0x38, 0x38, 0x44, 0x44, 0x40, 0x40, 0x40, 0x40, 0x40, 0x40, 0x44, 0x44, 0x38, 0x38, 0x00,
    // 0x44 D
    0x00, 0x70, 0x70, 0x48, 0x48, 0x44, 0x44, 0x44, 0x44, 0x44, 0x44, 0x48, 0x48, 0x70, 0x70, 0x00,
    // 0x45 E
    0x00, 0x7C, 0x7C, 0x40, 0x40, 0x40, 0x40, 0x78, 0x78, 0x40, 0x40, 0x40, 0x40, 0x7C, 0x7C, 0x00,
    // 0x46 F
    0x00, 0x7C, 0x7C, 0x40, 0x40, 0x40, 0x40, 0x78, 0x78, 0x40, 0x40, 0x40, 0x40, 0x40, 0x40, 0x00,
    // 0x47 G
    0x00, 0x38, 0x38, 0x44, 0x44, 0x40, 0x40, 0x5C, 0x5C, 0x44, 0x44, 0x44, 0x44, 0x3C, 0x3C, 0x00,
    // 0x48 H
    0x00, 0x44, 0x44, 0x44, 0x44, 0x44, 0x44, 0x7C, 0x7C, 0x44, 0x44, 0x44, 0x44, 0x44, 0x44, 0x00,
    // 0x49 I
    0x00, 0x38, 0x38, 0x10, 0x10, 0x10, 0x10, 0x10, 0x10, 0x10, 0x10, 0x10, 0x10, 0x38, 0x38, 0x00,
    // 0x4A J
    0x00, 0x1C, 0x1C, 0x08, 0x08, 0x08, 0x08, 0x08, 0x08, 0x08, 0x08, 0x48, 0x48, 0x30, 0x30, 0x00,
    // 0x4B K
    0x00, 0x44, 0x44, 0x48, 0x48, 0x50, 0x50, 0x60, 0x60, 0x50, 0x50, 0x48, 0x48, 0x44, 0x44, 0x00,
    // 0x4C L
    0x00, 0x40, 0x40, 0x40, 0x40, 0x40, 0x40, 0x40, 0x40, 0x40, 0x40, 0x40, 0x40, 0x7C, 0x7C, 0x00,
    // 0x4D M
    0x00, 0x44, 0x44, 0x6C, 0x6C, 0x54, 0x54, 0x54, 0x54, 0x44, 0x44, 0x44, 0x44, 0x44, 0x44, 0x00,
    // 0x4E N
    0x00, 0x44, 0x44, 0x44, 0x44, 0x64, 0x64, 0x54, 0x54, 0x4C, 0x4C, 0x44, 0x44, 0x44, 0x44, 0x00,
    // 0x4F O
    0x00, 0x38, 0x38, 0x44, 0x44, 0x44, 0x44, 0x44, 0x44, 0x44, 0x44, 0x44, 0x44, 0x38, 0x38, 0x00,
    // 0x50 P
    0x00, 0x78, 0x78, 0x44, 0x44, 0x44, 0x44, 0x78, 0x78, 0x40, 0x40, 0x40, 0x40, 0x40, 0x40, 0x00,
    // 0x51 Q
    0x00, 0x38, 0x38, 0x44, 0x44, 0x44, 0x44, 0x44, 0x44, 0x54, 0x54, 0x48, 0x48, 0x34, 0x34, 0x00,
    // 0x52 R
    0x00, 0x78, 0x78, 0x44, 0x44, 0x44, 0x44, 0x78, 0x78, 0x50, 0x50, 0x48, 0x48, 0x44, 0x44, 0x00,
    // 0x53 S
    0x00, 0x3C, 0x3C, 0x40, 0x40, 0x40, 0x40, 0x38, 0x38, 0x04, 0x04, 0x04, 0x04, 0x78, 0x78, 0x00,
    // 0x54 T
    0x00, 0x7C, 0x7C, 0x10, 0x10, 0x10, 0x10, 0x10, 0x10, 0x10, 0x10, 0x10, 0x10, 0x10, 0x10, 0x00,
    // 0x55 U
    0x00, 0x44, 0x44, 0x44, 0x44, 0x44, 0x44, 0x44, 0x44, 0x44, 0x44, 0x44, 0x44, 0x38, 0x38, 0x00,
    // 0x56 V
    0x00, 0x44, 0x44, 0x44, 0x44, 0x44, 0x44, 0x44, 0x44, 0x44, 0x44, 0x28, 0x28, 0x10, 0x10, 0x00,
    // 0x57 W
    0x00, 0x44, 0x44, 0x44, 0x44, 0x44, 0x44, 0x54, 0x54, 0x54, 0x54, 0x54, 0x54, 0x28, 0x28, 0x00,
    // 0x58 X
    0x00, 0x44, 0x44, 0x44, 0x44, 0x28, 0x28, 0x10, 0x10, 0x28, 0x28, 0x44, 0x44, 0x44, 0x44, 0x00,
    // 0x59 Y
    0x00, 0x44, 0x44, 0x44, 0x44, 0x44, 0x44, 0x28, 0x28, 0x10, 0x10, 0x10, 0x10, 0x10, 0x10, 0x00,
    // 0x5A Z
    0x00, 0x7C, 0x7C, 0x04, 0x04, 0x08, 0x08, 0x10, 0x10, 0x20, 0x20, 0x40, 0x40, 0x7C, 0x7C, 0x00,
    // 0x5B
    0x00, 0x38, 0x38, 0x20, 0x20, 0x20, 0x20, 0x20, 0x20, 0x20, 0x20, 0x20, 0x20, 0x38, 0x38, 0x00,
    // 0x5C
    0x00, 0x00, 0x00, 0x40, 0x40, 0x20, 0x20, 0x10, 0x10, 0x08, 0x08, 0x04, 0x04, 0x00, 0x00, 0x00,
    // 0x5D
    0x00, 0x38, 0x38, 0x08, 0x08, 0x08, 0x08, 0x08, 0x08, 0x08, 0x08, 0x08, 0x08, 0x38, 0x38, 0x00,
    // 0x5E
    0x00, 0x10, 0x10, 0x28, 0x28, 0x44, 0x44, 0x00, 0x00, 0x00, 0x00, 0x00, 0x00, 0x00, 0x00, 0x00,
    // 0x5F
    0x00, 0x00, 0x00, 0x00, 0x00, 0x00, 0x00, 0x00, 0x00, 0x00, 0x00, 0x00, 0x00, 0x7C, 0x7C, 0x00,
    // 0x60
    0x00, 0x20, 0x20, 0x10, 0x10, 0x08, 0x08, 0x00, 0x00, 0x00, 0x00, 0x00, 0x00, 0x00, 0x00, 0x00,
    // 0x61 a
    0x00, 0x00, 0x00, 0x00, 0x00, 0x38, 0x38, 0x04, 0x04, 0x3C, 0x3C, 0x44, 0x44, 0x3C, 0x3C, 0x00,
    // 0x62 b
    0x00, 0x40, 0x40, 0x40, 0x40, 0x58, 0x58, 0x64, 0x64, 0x44, 0x44, 0x44, 0x44, 0x78, 0x78, 0x00,
    // 0x63 c
    0x00, 0x00, 0x00, 0x00, 0x00, 0x38, 0x38, 0x40, 0x40, 0x40, 0x40, 0x44, 0x44, 0x38, 0x38, 0x00,
    // 0x64 d
    0x00, 0x04, 0x04, 0x04, 0x04, 0x34, 0x34, 0x4C, 0x4C, 0x44, 0x44, 0x44, 0x44, 0x3C, 0x3C, 0x00,
    // 0x65 e
    0x00, 0x00, 0x00, 0x00, 0x00, 0x38, 0x38, 0x44, 0x44, 0x7C, 0x7C, 0x40, 0x40, 0x38, 0x38, 0x00,
    // 0x66 f
    0x00, 0x18, 0x18, 0x24, 0x24, 0x20, 0x20, 0x70, 0x70, 0x20, 0x20, 0x20, 0x20, 0x20, 0x20, 0x00,
    // 0x67 g
    0x00, 0x00, 0x00, 0x3C, 0x3C, 0x44, 0x44, 0x44, 0x44, 0x3C, 0x3C, 0x04, 0x04, 0x38, 0x38, 0x00,
    // 0x68 h
    0x00, 0x40, 0x40, 0x40, 0x40, 0x58, 0x58, 0x64, 0x64, 0x44, 0x44, 0x44, 0x44, 0x44, 0x44, 0x00,
    // 0x69 i
    0x00, 0x10, 0x10, 0x00, 0x00, 0x30, 0x30, 0x10, 0x10, 0x10, 0x10, 0x10, 0x10, 0x38, 0x38, 0x00,
    // 0x6A j
    0x00, 0x08, 0x08, 0x00, 0x00, 0x18, 0x18, 0x08, 0x08, 0x08, 0x08, 0x48, 0x48, 0x30, 0x30, 0x00,
    // 0x6B k
    0x00, 0x40, 0x40, 0x40, 0x40, 0x48, 0x48, 0x50, 0x50, 0x60, 0x60, 0x50, 0x50, 0x48, 0x48, 0x00,
    // 0x6C l
    0x00, 0x30, 0x30, 0x10, 0x10, 0x10, 0x10, 0x10, 0x10, 0x10, 0x10, 0x10, 0x10, 0x38, 0x38, 0x00,
    // 0x6D m
    0x00, 0x00, 0x00, 0x00, 0x00, 0x68, 0x68, 0x54, 0x54, 0x54, 0x54, 0x44, 0x44, 0x44, 0x44, 0x00,
    // 0x6E n
    0x00, 0x00, 0x00, 0x00, 0x00, 0x58, 0x58, 0x64, 0x64, 0x44, 0x44, 0x44, 0x44, 0x44, 0x44, 0x00,
    // 0x6F o
    0x00, 0x00, 0x00, 0x00, 0x00, 0x38, 0x38, 0x44, 0x44, 0x44, 0x44, 0x44, 0x44, 0x38, 0x38, 0x00,
    // 0x70 p
    0x00, 0x00, 0x00, 0x00, 0x00, 0x78, 0x78, 0x44, 0x44, 0x78, 0x78, 0x40, 0x40, 0x40, 0x40, 0x00,
    // 0x71 q
    0x00, 0x00, 0x00, 0x00, 0x00, 0x34, 0x34, 0x4C, 0x4C, 0x3C, 0x3C, 0x04, 0x04, 0x04, 0x04, 0x00,
    // 0x72 r
    0x00, 0x00, 0x00, 0x00, 0x00, 0x58, 0x58, 0x64, 0x64, 0x40, 0x40, 0x40, 0x40, 0x40, 0x40, 0x00,
    // 0x73 s
    0x00, 0x00, 0x00, 0x00, 0x00, 0x38, 0x38, 0x40, 0x40, 0x38, 0x38, 0x04, 0x04, 0x78, 0x78, 0x00,
    // 0x74 t
    0x00, 0x20, 0x20, 0x20, 0x20, 0x70, 0x70, 0x20, 0x20, 0x20, 0x20, 0x24, 0x24, 0x18, 0x18, 0x00,
    // 0x75 u
    0x00, 0x00, 0x00, 0x00, 0x00, 0x44, 0x44, 0x44, 0x44, 0x44, 0x44, 0x4C, 0x4C, 0x34, 0x34, 0x00,
    // 0x76 v
    0x00, 0x00, 0x00, 0x00, 0x00, 0x44, 0x44, 0x44, 0x44, 0x44, 0x44, 0x28, 0x28, 0x10, 0x10, 0x00,
    // 0x77 w
    0x00, 0x00, 0x00, 0x00, 0x00, 0x44, 0x44, 0x44, 0x44, 0x54, 0x54, 0x54, 0x54, 0x28, 0x28, 0x00,
    // 0x78 x
    0x00, 0x00, 0x00, 0x00, 0x00, 0x44, 0x44, 0x28, 0x28, 0x10, 0x10, 0x28, 0x28, 0x44, 0x44, 0x00,
    // 0x79 y
    0x00, 0x00, 0x00, 0x00, 0x00, 0x44, 0x44, 0x44, 0x44, 0x3C, 0x3C, 0x04, 0x04, 0x38, 0x38, 0x00,
    // 0x7A z
    0x00, 0x00, 0x00, 0x00, 0x00, 0x7C, 0x7C, 0x08, 0x08, 0x10, 0x10, 0x20, 0x20, 0x7C, 0x7C, 0x00,
    // 0x7B
    0x00, 0x08, 0x08, 0x10, 0x10, 0x10, 0x10, 0x20, 0x20, 0x10, 0x10, 0x10, 0x10, 0x08, 0x08, 0x00,
    // 0x7C
    0x00, 0x10, 0x10, 0x10, 0x10, 0x10, 0x10, 0x10, 0x10, 0x10, 0x10, 0x10, 0x10, 0x10, 0x10, 0x00,
    // 0x7D
    0x00, 0x20, 0x20, 0x10, 0x10, 0x10, 0x10, 0x08, 0x08, 0x10, 0x10, 0x10, 0x10, 0x20, 0x20, 0x00,
    // 0x7E
    0x00, 0x00, 0x00, 0x00, 0x00, 0x20, 0x20, 0x54, 0x54, 0x08, 0x08, 0x00, 0x00, 0x00, 0x00, 0x00,
    // 0x7F
    0x00, 0x00, 0x00, 0x00, 0x00, 0x00, 0x00, 0x00, 0x00, 0x00, 0x00, 0x00, 0x00, 0x00, 0x00, 0x00,
];

/// The scanline `row` of the glyph of `c`.
#[verifier::opaque]
pub open spec fn spec_glyph_row(c: char, row: int) -> u8 {
    FONT[(c as int) * CHAR_HEIGHT + row]
}

/// Whether the glyph of `c` has the pixel in column `col` of scanline `row` set.
pub open spec fn spec_glyph_pixel(c: char, row: int, col: int) -> bool {
    (spec_glyph_row(c, row) & (0x80u8 >> (col as u8))) != 0
}

/// Whether the font has a glyph for `c`.
pub open spec fn spec_has_glyph(c: char) -> bool {
    (c as int) < GLYPH_COUNT
}

/// Fetches the scanline `row` of the glyph of `c`.
pub fn glyph_row(c: char, row: usize) -> (bits: u8)
    requires
        spec_has_glyph(c),
        row < CHAR_HEIGHT,
    ensures
        bits == spec_glyph_row(c, row as int),
{
    reveal(spec_glyph_row);
    let code: usize = c as u32 as usize;
    FONT[code * CHAR_HEIGHT + row]
}

/// Tests the pixel in column `col` of the scanline `bits`.
pub fn scanline_pixel(bits: u8, col: usize) -> (set: bool)
    requires
        col < CHAR_WIDTH,
    ensures
        set == ((bits & (0x80u8 >> (col as u8))) != 0),
{
    (bits & (0x80u8 >> (col as u8))) != 0
}

} // verus!
