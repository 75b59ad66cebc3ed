//! The kernel console: what is printed goes to the serial port and to the
//! terminal.
//!
//! A log line is a timestamp, a title in its own color and the message:
//! `|00000.000| [  INFO  ]: message`.

use crate::drivers::vbe::Framebuffer;
use crate::hal::uart::UartInterface;
use crate::kernel::gfx::terminal::Terminal;
use crate::kernel::gfx::terminal::TerminalView;
use crate::kernel::gfx::Color;
use crate::kernel::gfx::Rgb;
use vstd::prelude::*;
use vstd::string::StrSliceExecFns;

verus! {

/// Informational log title.
pub const LOG_INFO: &'static str = "  INFO  ";

/// Informational log title color: white.
pub const LOG_INFO_COLOR: Rgb = 0xFF_FF_FF;

/// Debug log title.
pub const LOG_DEBUG: &'static str = " DEBUG  ";

/// Debug log title color: gray.
pub const LOG_DEBUG_COLOR: Rgb = 0xBF_BF_BF;

/// Success log title.
pub const LOG_SUCCESS: &'static str = "   OK   ";

/// Success log title color: green.
pub const LOG_SUCCESS_COLOR: Rgb = 0x00_FF_00;

/// Fail log title.
pub const LOG_FAIL: &'static str = " FAILED ";

/// Fail log title color: red.
pub const LOG_FAIL_COLOR: Rgb = 0xFF_00_00;

/// Panic log title.
pub const LOG_PANIC: &'static str = " PANIC  ";

/// Panic log title color: yellow.
pub const LOG_PANIC_COLOR: Rgb = 0xFF_FF_44;

/// Test log title.
pub const LOG_TEST: &'static str = "  TEST  ";

/// Test log title color: blue.
pub const LOG_TEST_COLOR: Rgb = 0x00_00_FF;

/// Log timestamp color: gray.
pub const TIMESTAMP_COLOR: Rgb = 0xBF_BF_BF;

/// The timestamp of a log line. The kernel has no clock yet.
pub const TIMESTAMP: &'static str = "|00000.000|";

/// The colors of the text output.
#[derive(Debug, Clone, Copy, PartialEq, Eq, Structural)]
pub struct Colors {
    /// Foreground color.
    pub fg: Rgb,
    /// Background color.
    pub bg: Rgb,
}

impl Default for Colors {
    /// White on black.
    fn default() -> (colors: Self)
        ensures
            colors == (Colors { fg: Color::White.spec_value(), bg: Color::Black.spec_value() }),
    {
        Colors { fg: Color::White.value(), bg: Color::Black.value() }
    }
}

/// Sets the current colors of the text output.
pub fn set_color(colors: &mut Colors, fg: Rgb, bg: Rgb)
    ensures
        *final(colors) == (Colors { fg, bg }),
{
    colors.fg = fg;
    colors.bg = bg;
}

/// Puts the characters of `s` on the terminal, one after the other, up to the
/// first that the terminal does not accept. Returns how many were put.
pub fn write_str(terminal: &mut Terminal, pixels: &mut [Rgb], s: &str, fg: Rgb, bg: Rgb) -> (count:
    usize)
    requires
        old(terminal).wf(),
        old(terminal)@.covers(old(pixels)@),
    ensures
        count <= s@.len(),
        (final(terminal)@, final(pixels)@) == old(terminal)@.written(
            old(pixels)@,
            s@,
            count as nat,
            fg,
            bg,
        ),
        old(terminal)@.accepts_all(old(pixels)@, s@, count as nat, fg, bg),
        count < s@.len() ==> !final(terminal)@.accepts(s@[count as int]),
        final(terminal).wf(),
        final(terminal)@.covers(final(pixels)@),
{
    let len: usize = s.unicode_len();
    let mut count: usize = 0;
    let ghost start = terminal@;
    let ghost before = pixels@;
    for c in it: s.chars()
        invariant_except_break
            count == it.index(),
        invariant
            len == s@.len(),
            it.seq() == s@,
            count <= len,
            start == old(terminal)@,
            before == old(pixels)@,
            terminal.wf(),
            terminal@.covers(pixels@),
            (terminal@, pixels@) == start.written(before, s@, count as nat, fg, bg),
            start.accepts_all(before, s@, count as nat, fg, bg),
        ensures
            count < s@.len() ==> !terminal@.accepts(s@[count as int]),
    {
        if !terminal.accepts(c) {
            break;
        }
        terminal.put_char(pixels, c, fg, bg);
        count += 1;
    }
    count
}

/// Prints `s`: all of it goes to the serial port, and to the terminal in the
/// current colors as far as the terminal accepts it. Returns how many
/// characters the terminal took.
pub fn __print<U: UartInterface>(
    uart: &U,
    terminal: &mut Terminal,
    pixels: &mut [Rgb],
    colors: &Colors,
    s: &str,
) -> (count: usize)
    requires
        old(terminal).wf(),
        old(terminal)@.covers(old(pixels)@),
    ensures
        count <= s@.len(),
        (final(terminal)@, final(pixels)@) == old(terminal)@.written(
            old(pixels)@,
            s@,
            count as nat,
            colors.fg,
            colors.bg,
        ),
        old(terminal)@.accepts_all(old(pixels)@, s@, count as nat, colors.fg, colors.bg),
        count < s@.len() ==> !final(terminal)@.accepts(s@[count as int]),
        final(terminal).wf(),
        final(terminal)@.covers(final(pixels)@),
{
    crate::hal::uart::write_str(uart, s);
    write_str(terminal, pixels, s, colors.fg, colors.bg)
}

/// Initializes the serial port.
pub fn init_serial_writer<U: UartInterface>(uart: &U) {
    uart.init();
}

/// Binds the terminal to the screen that `fb` describes.
pub fn init_terminal_writer(terminal: &mut Terminal, fb: Framebuffer)
    ensures
        final(terminal)@ == (TerminalView {
            fb: Some(fb),
            width: (fb.width as i32) as int,
            height: (fb.height as i32) as int,
            x: 0,
            y: 0,
            fg: Color::White.spec_value(),
            bg: Color::Black.spec_value(),
        }),
        fb.spec_is_usable() ==> final(terminal).wf(),
{
    terminal.init(fb);
}

} // verus!
