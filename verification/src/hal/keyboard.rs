//! Keyboard declarations that do not depend on the architecture.

use crate::arch::x86::drivers::keyboard::spec_get_line;
use crate::arch::x86::drivers::keyboard::spec_read_key;
use crate::arch::x86::drivers::keyboard::KeyboardState;
use crate::arch::x86::drivers::keyboard::Line;
use vstd::prelude::*;

verus! {

/// Keyboard key.
#[derive(Debug, Clone, Copy, PartialEq, Eq, Structural)]
pub enum Key {
    Esc,
    Backspace,
    Tab,
    Enter,
    LCtrl,
    LShift,
    Backslash,
    LAlt,
    Space,
    CapsLock,
    LeftArrow,
    RightArrow,
    UpArrow,
    DownArrow,
    Unknown,
    Char(char),
}

/// Decodes the byte `data` that the keyboard delivered and updates `state`.
pub fn read_key(state: &mut KeyboardState, data: u8) -> (key: Key)
    ensures
        (*final(state), key) == spec_read_key(*old(state), data),
{
    crate::arch::x86::drivers::keyboard::read_key(state, data)
}

/// Edits a line in `buffer` from the key events `keys`, up to the first that
/// ends the line.
pub fn get_line(buffer: &mut [char], keys: &[Key]) -> (line: Line)
    ensures
        line.spec_with(final(buffer)@) == spec_get_line(old(buffer)@, keys@),
{
    crate::arch::x86::drivers::keyboard::get_line(buffer, keys)
}

} // verus!
