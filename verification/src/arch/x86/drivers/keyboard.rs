//! PS/2 keyboard driver.
//!
//! The keyboard delivers one byte per key transition: the low seven bits are
//! the scan code, the top bit is clear when the key goes down and set when it
//! comes up. Named keys are reported when they go down, characters when the
//! key comes up. The shift key is never reported; it only selects the
//! character table.

use crate::hal::keyboard::Key;
use vstd::prelude::*;
use vstd::std_specs::convert::FromSpecImpl;

verus! {

/// Port of the keyboard controller's status register.
pub const STATUS_PORT: u16 = 0x64;

/// Port of the keyboard controller's data register.
pub const DATA_PORT: u16 = 0x60;

/// Unknown or undefined character placeholder.
pub const UNKNOWN: char = '\0';

/// Characters by scan code, without shift.
pub const LOWERCASE_KEYS: [char; 128] = [
    UNKNOWN, UNKNOWN, '1', '2', '3', '4', '5', '6', '7', '8', '9', '0', '-',
    '=', UNKNOWN, '\t', 'q', 'w', 'e', 'r', 't', 'y', 'u', 'i', 'o', 'p', '[',
    ']', '\n', UNKNOWN, 'a', 's', 'd', 'f', 'g', 'h', 'j', 'k', 'l', ';', '\'',
    '`', UNKNOWN, '\\', 'z', 'x', 'c', 'v', 'b', 'n', 'm', ',', '.', '/',
    UNKNOWN, '*', UNKNOWN, ' ', UNKNOWN, UNKNOWN, UNKNOWN, UNKNOWN, UNKNOWN,
    UNKNOWN, UNKNOWN, UNKNOWN, UNKNOWN, UNKNOWN, UNKNOWN, UNKNOWN, UNKNOWN,
    UNKNOWN, UNKNOWN, UNKNOWN, '-', UNKNOWN, UNKNOWN, UNKNOWN, '+', UNKNOWN,
    UNKNOWN, UNKNOWN, UNKNOWN, UNKNOWN, UNKNOWN, UNKNOWN, UNKNOWN, UNKNOWN,
    UNKNOWN, UNKNOWN, UNKNOWN, UNKNOWN, UNKNOWN, UNKNOWN, UNKNOWN, UNKNOWN,
    UNKNOWN, UNKNOWN, UNKNOWN, UNKNOWN, UNKNOWN, UNKNOWN, UNKNOWN, UNKNOWN,
    UNKNOWN, UNKNOWN, UNKNOWN, UNKNOWN, UNKNOWN, UNKNOWN, UNKNOWN, UNKNOWN,
    UNKNOWN, UNKNOWN, UNKNOWN, UNKNOWN, UNKNOWN, UNKNOWN, UNKNOWN, UNKNOWN,
    UNKNOWN, UNKNOWN, UNKNOWN, UNKNOWN, UNKNOWN, UNKNOWN, UNKNOWN, UNKNOWN,
];

/// Characters by scan code, with shift held.
pub const UPPERCASE_KEYS: [char; 128] = [
    UNKNOWN, UNKNOWN, '!', '@', '#', '$', '%', '^', '&', '*', '(', ')', '_',
    '+', UNKNOWN, '\t', 'Q', 'W', 'E', 'R', 'T', 'Y', 'U', 'I', 'O', 'P', '{',
    '}', '\n', UNKNOWN, 'A', 'S', 'D', 'F', 'G', 'H', 'J', 'K', 'L', ':', '"',
    '~', UNKNOWN, '|', 'Z', 'X', 'C', 'V', 'B', 'N', 'M', '<', '>', '?',
    UNKNOWN, '*', UNKNOWN, ' ', UNKNOWN, UNKNOWN, UNKNOWN, UNKNOWN, UNKNOWN,
    UNKNOWN, UNKNOWN, UNKNOWN, UNKNOWN, UNKNOWN, UNKNOWN, UNKNOWN, UNKNOWN,
    UNKNOWN, UNKNOWN, UNKNOWN, '-', UNKNOWN, UNKNOWN, UNKNOWN, '+', UNKNOWN,
    UNKNOWN, UNKNOWN, UNKNOWN, UNKNOWN, UNKNOWN, UNKNOWN, UNKNOWN, UNKNOWN,
    UNKNOWN, UNKNOWN, UNKNOWN, UNKNOWN, UNKNOWN, UNKNOWN, UNKNOWN, UNKNOWN,
    UNKNOWN, UNKNOWN, UNKNOWN, UNKNOWN, UNKNOWN, UNKNOWN, UNKNOWN, UNKNOWN,
    UNKNOWN, UNKNOWN, UNKNOWN, UNKNOWN, UNKNOWN, UNKNOWN, UNKNOWN, UNKNOWN,
    UNKNOWN, UNKNOWN, UNKNOWN, UNKNOWN, UNKNOWN, UNKNOWN, UNKNOWN, UNKNOWN,
    UNKNOWN, UNKNOWN, UNKNOWN, UNKNOWN, UNKNOWN, UNKNOWN, UNKNOWN, UNKNOWN,
];

/// The named key that a scan code stands for, `Unknown` if it stands for none.
pub open spec fn spec_named_key(scan_code: u8) -> Key {
    match scan_code {
        0x01 => Key::Esc,
        0x0E => Key::Backspace,
        0x0F => Key::Tab,
        0x1C => Key::Enter,
        0x1D => Key::LCtrl,
        0x2A => Key::LShift,
        0x2B => Key::Backslash,
        0x38 => Key::LAlt,
        0x39 => Key::Space,
        0x3A => Key::CapsLock,
        0x4B => Key::LeftArrow,
        0x60 => Key::RightArrow,
        0x48 => Key::UpArrow,
        0x50 => Key::DownArrow,
        _ => Key::Unknown,
    }
}

impl From<u8> for Key {
    /// The named key that the scan code `value` stands for.
    fn from(value: u8) -> (key: Self) {
        match value {
            0x01 => Key::Esc,
            0x0E => Key::Backspace,
            0x0F => Key::Tab,
            0x1C => Key::Enter,
            0x1D => Key::LCtrl,
            0x2A => Key::LShift,
            0x2B => Key::Backslash,
            0x38 => Key::LAlt,
            0x39 => Key::Space,
            0x3A => Key::CapsLock,
            0x4B => Key::LeftArrow,
            0x60 => Key::RightArrow,
            0x48 => Key::UpArrow,
            0x50 => Key::DownArrow,
            _ => Key::Unknown,
        }
    }
}

impl FromSpecImpl<u8> for Key {
    open spec fn obeys_from_spec() -> bool {
        true
    }

    open spec fn from_spec(value: u8) -> Self {
        spec_named_key(value)
    }
}

/// What the driver remembers between two bytes from the keyboard.
#[derive(Debug, Clone, Copy, PartialEq, Eq, Structural)]
pub struct KeyboardState {
    /// Scan code of the last transition.
    pub scan_code: u8,
    /// Whether the last transition was a key going down.
    pub is_pressed: bool,
    /// Whether the shift key is held.
    pub is_shift: bool,
}

/// The character that a scan code stands for.
pub open spec fn spec_character(scan_code: u8, shift_held: bool) -> char {
    if shift_held {
        UPPERCASE_KEYS[scan_code as int]
    } else {
        LOWERCASE_KEYS[scan_code as int]
    }
}

/// The key event that a transition gives.
///
/// A named key is reported when it goes down, and the shift key never; a
/// character is reported when its key comes up. Every other transition gives
/// `Unknown`.
pub open spec fn spec_decode(scan_code: u8, is_press: bool, shift_held: bool) -> Key {
    match spec_named_key(scan_code) {
        Key::LShift => Key::Unknown,
        Key::Unknown => if !is_press {
            Key::Char(spec_character(scan_code, shift_held))
        } else {
            Key::Unknown
        },
        named => if is_press {
            named
        } else {
            Key::Unknown
        },
    }
}

/// Whether shift is held after a transition: the shift key sets it on the way
/// down and clears it on the way up, no other key touches it.
pub open spec fn spec_shift_after(scan_code: u8, is_press: bool, shift_held: bool) -> bool {
    if spec_named_key(scan_code) == Key::LShift {
        is_press
    } else {
        shift_held
    }
}

/// The scan code in a byte from the keyboard.
pub open spec fn spec_scan_code(data: u8) -> u8 {
    data & 0x7F
}

/// Whether a byte from the keyboard tells of a key going down.
pub open spec fn spec_is_press(data: u8) -> bool {
    data & 0x80 == 0
}

/// The state after the byte `data`, and the key event it gives.
pub open spec fn spec_read_key(state: KeyboardState, data: u8) -> (KeyboardState, Key) {
    let scan_code = spec_scan_code(data);
    let is_press = spec_is_press(data);
    (
        KeyboardState {
            scan_code,
            is_pressed: is_press,
            is_shift: spec_shift_after(scan_code, is_press, state.is_shift),
        },
        spec_decode(scan_code, is_press, state.is_shift),
    )
}

/// Tells from the status register whether a byte waits in the data register.
pub fn data_ready(status: u8) -> (ready: bool)
    ensures
        ready == (status & 0x01 != 0),
{
    (status & 0x01) != 0
}

/// Decodes one key transition.
pub fn decode(scan_code: u8, is_press: bool, shift_held: bool) -> (key: Key)
    requires
        scan_code < 128,
    ensures
        key == spec_decode(scan_code, is_press, shift_held),
{
    let key = Key::from(scan_code);
    match key {
        Key::LShift => Key::Unknown,
        Key::Unknown => {
            if !is_press {
                let pos: usize = scan_code as usize;
                // Check whether to return uppercase or lowercase character.
                let ch: char = if shift_held {
                    UPPERCASE_KEYS[pos]
                } else {
                    LOWERCASE_KEYS[pos]
                };
                Key::Char(ch)
            } else {
                Key::Unknown
            }
        },
        _ => {
            // Just return other keys.
            if is_press {
                key
            } else {
                Key::Unknown
            }
        },
    }
}

/// Decodes the byte `data` that the keyboard delivered and updates `state`.
pub fn read_key(state: &mut KeyboardState, data: u8) -> (key: Key)
    ensures
        (*final(state), key) == spec_read_key(*old(state), data),
{
    let scan_code: u8 = data & 0x7F;
    let is_press: bool = (data & 0x80) == 0;
    assert(data & 0x7F < 128) by (bit_vector);
    let key = decode(scan_code, is_press, state.is_shift);
    state.scan_code = scan_code;
    state.is_pressed = is_press;
    if scan_code == 0x2A {
        state.is_shift = is_press;
    }
    key
}

/// Whether `c` is a graphic ASCII character.
pub open spec fn spec_is_graphic(c: char) -> bool {
    '!' <= c <= '~'
}

/// Tells whether `c` is a graphic ASCII character.
pub fn is_graphic(c: char) -> (graphic: bool)
    ensures
        graphic == spec_is_graphic(c),
{
    '!' <= c && c <= '~'
}

/// What is to be printed after a key was handled.
#[derive(Debug, Clone, Copy, PartialEq, Eq, Structural)]
pub enum Echo {
    /// Nothing.
    Nothing,
    /// One character.
    Char(char),
    /// So many spaces.
    Spaces(usize),
}

impl View for Echo {
    type V = Seq<char>;

    /// The characters to print.
    open spec fn view(&self) -> Seq<char> {
        match *self {
            Echo::Nothing => Seq::empty(),
            Echo::Char(c) => seq![c],
            Echo::Spaces(count) => Seq::new(count as nat, |i: int| ' '),
        }
    }
}

/// A line buffer after one key was handled.
pub struct EditView {
    /// Content of the buffer.
    pub buffer: Seq<char>,
    /// Number of characters of the line that the buffer holds.
    pub len: int,
    /// The characters to print.
    pub echo: Seq<char>,
    /// Whether the key ended the line.
    pub done: bool,
}

/// What handling one key left, but for the buffer.
#[derive(Debug, Clone, Copy, PartialEq, Eq, Structural)]
pub struct Edit {
    /// Number of characters of the line that the buffer holds.
    pub len: usize,
    /// What is to be printed.
    pub echo: Echo,
    /// Whether the key ended the line.
    pub done: bool,
}

/// Number of spaces that a tab puts into a buffer with `room` free places.
pub open spec fn spec_tab_spaces(room: int) -> int {
    if room < 4 {
        room
    } else {
        4
    }
}

/// The effect of one key on a line of `len` characters in `buffer`.
///
/// Enter ends the line, and so does the character that stands for no
/// character. Backspace takes the last character away, if there is one. Tab
/// appends up to four spaces, as many as the buffer has room for, and echoes
/// as many. A space or another character is echoed in any case; it is stored
/// while the buffer has room, a character only if it is graphic. Other keys do
/// nothing.
pub open spec fn spec_edit_line(buffer: Seq<char>, len: int, key: Key) -> EditView {
    match key {
        Key::Backspace => if len == 0 {
            EditView { buffer, len, echo: Seq::empty(), done: false }
        } else {
            EditView {
                buffer: buffer.update(len - 1, UNKNOWN),
                len: len - 1,
                echo: seq!['\x08'],
                done: false,
            }
        },
        Key::Enter => EditView { buffer, len, echo: seq!['\n'], done: true },
        Key::Space => if len < buffer.len() {
            EditView { buffer: buffer.update(len, ' '), len: len + 1, echo: seq![' '], done: false }
        } else {
            EditView { buffer, len, echo: seq![' '], done: false }
        },
        Key::Tab => {
            let count = spec_tab_spaces(buffer.len() - len);
            EditView {
                buffer: Seq::new(
                    buffer.len(),
                    |i: int|
                        if len <= i < len + count {
                            ' '
                        } else {
                            buffer[i]
                        },
                ),
                len: len + count,
                echo: Seq::new(count as nat, |i: int| ' '),
                done: false,
            }
        },
        Key::Char(ch) => if ch == UNKNOWN {
            EditView { buffer, len, echo: Seq::empty(), done: true }
        } else if len < buffer.len() && spec_is_graphic(ch) {
            EditView { buffer: buffer.update(len, ch), len: len + 1, echo: seq![ch], done: false }
        } else {
            EditView { buffer, len, echo: seq![ch], done: false }
        },
        _ => EditView { buffer, len, echo: Seq::empty(), done: false },
    }
}

/// Handles one key for a line of `len` characters in `buffer`.
pub fn edit_line(buffer: &mut [char], len: usize, key: Key) -> (edit: Edit)
    requires
        len <= old(buffer)@.len(),
    ensures
        spec_edit_line(old(buffer)@, len as int, key) == (EditView {
            buffer: final(buffer)@,
            len: edit.len as int,
            echo: edit.echo@,
            done: edit.done,
        }),
        edit.len <= final(buffer)@.len(),
{
    let size: usize = buffer.len();
    match key {
        Key::Backspace => {
            if len == 0 {
                Edit { len, echo: Echo::Nothing, done: false }
            } else {
                buffer[len - 1] = UNKNOWN;
                Edit { len: len - 1, echo: Echo::Char('\x08'), done: false }
            }
        },
        Key::Enter => Edit { len, echo: Echo::Char('\n'), done: true },
        Key::Space => {
            if len < size {
                buffer[len] = ' ';
                Edit { len: len + 1, echo: Echo::Char(' '), done: false }
            } else {
                Edit { len, echo: Echo::Char(' '), done: false }
            }
        },
        Key::Tab => {
            let ghost before = buffer@;
            let mut pos: usize = len;
            let mut i: usize = 0;
            while pos < size && i < 4
                invariant
                    size == before.len(),
                    buffer@.len() == before.len(),
                    pos == len + i,
                    pos <= size,
                    i <= 4,
                    forall|j: int|
                        0 <= j < size ==> buffer@[j] == (if len <= j < pos {
                            ' '
                        } else {
                            before[j]
                        }),
                decreases 4 - i,
            {
                buffer[pos] = ' ';
                pos += 1;
                i += 1;
            }
            proof {
                let view = spec_edit_line(before, len as int, key);
                assert(i == spec_tab_spaces(size - len));
                assert(buffer@ =~= view.buffer);
                assert(Echo::Spaces(i)@ =~= view.echo);
            }
            Edit { len: pos, echo: Echo::Spaces(i), done: false }
        },
        Key::Char(ch) => {
            if ch == UNKNOWN {
                Edit { len, echo: Echo::Nothing, done: true }
            } else if len < size && is_graphic(ch) {
                buffer[len] = ch;
                Edit { len: len + 1, echo: Echo::Char(ch), done: false }
            } else {
                Edit { len, echo: Echo::Char(ch), done: false }
            }
        },
        _ => Edit { len, echo: Echo::Nothing, done: false },
    }
}

/// A line while it is read.
pub struct LineView {
    /// Content of the buffer.
    pub buffer: Seq<char>,
    /// Number of characters of the line that the buffer holds.
    pub len: int,
    /// All that was to be printed, in order.
    pub echo: Seq<char>,
    /// Number of key events that were handled.
    pub consumed: int,
    /// Whether the line has ended.
    pub done: bool,
}

/// What reading a line left, but for the buffer.
#[derive(Debug)]
pub struct Line {
    /// Number of characters of the line that the buffer holds.
    pub len: usize,
    /// All that was to be printed, in order.
    pub echo: Vec<char>,
    /// Number of key events that were handled.
    pub consumed: usize,
    /// Whether the line has ended.
    pub done: bool,
}

impl Line {
    /// This result together with the buffer it belongs to.
    pub open spec fn spec_with(&self, buffer: Seq<char>) -> LineView {
        LineView {
            buffer,
            len: self.len as int,
            echo: self.echo@,
            consumed: self.consumed as int,
            done: self.done,
        }
    }
}

/// The empty line in `buffer`, before any key.
pub open spec fn spec_line_start(buffer: Seq<char>) -> LineView {
    LineView { buffer, len: 0, echo: Seq::empty(), consumed: 0, done: false }
}

/// The line after one more key event. A line that has ended stays as it is.
pub open spec fn spec_line_step(line: LineView, key: Key) -> LineView {
    if line.done {
        line
    } else {
        let edit = spec_edit_line(line.buffer, line.len, key);
        LineView {
            buffer: edit.buffer,
            len: edit.len,
            echo: line.echo + edit.echo,
            consumed: line.consumed + 1,
            done: edit.done,
        }
    }
}

/// The line after the first `count` of the key events `keys`.
pub open spec fn spec_line_after(buffer: Seq<char>, keys: Seq<Key>, count: nat) -> LineView
    decreases count,
{
    if count == 0 {
        spec_line_start(buffer)
    } else {
        spec_line_step(spec_line_after(buffer, keys, (count - 1) as nat), keys[count - 1])
    }
}

/// The line that the key events `keys` leave in `buffer`.
pub open spec fn spec_get_line(buffer: Seq<char>, keys: Seq<Key>) -> LineView {
    spec_line_after(buffer, keys, keys.len())
}

/// Key events after the one that ended the line change nothing.
pub proof fn lemma_line_ended(buffer: Seq<char>, keys: Seq<Key>, count: nat, later: nat)
    requires
        count <= later,
        spec_line_after(buffer, keys, count).done,
    ensures
        spec_line_after(buffer, keys, later) == spec_line_after(buffer, keys, count),
    decreases later,
{
    if count < later {
        lemma_line_ended(buffer, keys, count, (later - 1) as nat);
    }
}

/// Whether `keys` are the key events of someone who types `text` and then
/// Enter.
pub open spec fn spec_types(keys: Seq<Key>, text: Seq<char>) -> bool {
    &&& keys.len() == text.len() + 1
    &&& forall|i: int| 0 <= i < text.len() ==> #[trigger] keys[i] == Key::Char(text[i])
    &&& keys[text.len() as int] == Key::Enter
}

/// While graphic characters that fit the buffer are typed, the line holds
/// exactly what was typed, and so does the echo.
proof fn lemma_typing(buffer: Seq<char>, keys: Seq<Key>, text: Seq<char>, count: nat)
    requires
        spec_types(keys, text),
        text.len() <= buffer.len(),
        count <= text.len(),
        forall|i: int| 0 <= i < text.len() ==> spec_is_graphic(#[trigger] text[i]),
    ensures
        spec_line_after(buffer, keys, count) == (LineView {
            buffer: text.subrange(0, count as int) + buffer.subrange(
                count as int,
                buffer.len() as int,
            ),
            len: count as int,
            echo: text.subrange(0, count as int),
            consumed: count as int,
            done: false,
        }),
    decreases count,
{
    let line = spec_line_after(buffer, keys, count);
    if count == 0 {
        assert(line.buffer =~= text.subrange(0, 0) + buffer.subrange(0, buffer.len() as int));
        assert(line.echo =~= text.subrange(0, 0));
    } else {
        lemma_typing(buffer, keys, text, (count - 1) as nat);
        assert(keys[count - 1] == Key::Char(text[count - 1]));
        assert(spec_is_graphic(text[count - 1]));
        assert(line.buffer =~= text.subrange(0, count as int) + buffer.subrange(
            count as int,
            buffer.len() as int,
        ));
        assert(line.echo =~= text.subrange(0, count as int));
    }
}

/// When graphic characters that fit the buffer are typed and then Enter, the
/// line ends with Enter, the buffer begins with exactly what was typed, the
/// rest of it is untouched, and the echo is what was typed and a newline.
pub proof fn lemma_typed_line(buffer: Seq<char>, keys: Seq<Key>, text: Seq<char>)
    requires
        spec_types(keys, text),
        text.len() <= buffer.len(),
        forall|i: int| 0 <= i < text.len() ==> spec_is_graphic(#[trigger] text[i]),
    ensures
        spec_get_line(buffer, keys) == (LineView {
            buffer: text + buffer.subrange(text.len() as int, buffer.len() as int),
            len: text.len() as int,
            echo: text.push('\n'),
            consumed: text.len() as int + 1,
            done: true,
        }),
{
    lemma_typing(buffer, keys, text, text.len());
    let typed = spec_line_after(buffer, keys, text.len());
    let line = spec_get_line(buffer, keys);
    assert(line == spec_line_step(typed, keys[text.len() as int]));
    assert(text.subrange(0, text.len() as int) =~= text);
    assert(line.echo =~= text.push('\n'));
}

/// Appends what `echo` stands for to `out`.
fn push_echo(out: &mut Vec<char>, echo: Echo)
    ensures
        final(out)@ == old(out)@ + echo@,
{
    match echo {
        Echo::Nothing => {
            assert(out@ =~= old(out)@ + echo@);
        },
        Echo::Char(c) => {
            out.push(c);
            assert(out@ =~= old(out)@ + echo@);
        },
        Echo::Spaces(count) => {
            let mut i: usize = 0;
            assert(out@ =~= old(out)@ + Seq::new(0, |j: int| ' '));
            while i < count
                invariant
                    i <= count,
                    out@ == old(out)@ + Seq::new(i as nat, |j: int| ' '),
                decreases count - i,
            {
                out.push(' ');
                i += 1;
                assert(out@ =~= old(out)@ + Seq::new(i as nat, |j: int| ' '));
            }
            assert(out@ =~= old(out)@ + echo@);
        },
    }
}

/// Edits a line in `buffer` from the key events `keys`, up to the first that
/// ends the line.
///
/// The result tells how many characters the line has, what is to be printed
/// for it, how many key events were handled and whether the line has ended.
/// While it has not, the caller goes on with `edit_line`.
pub fn get_line(buffer: &mut [char], keys: &[Key]) -> (line: Line)
    ensures
        line.spec_with(final(buffer)@) == spec_get_line(old(buffer)@, keys@),
{
    let mut line = Line { len: 0, echo: Vec::new(), consumed: 0, done: false };
    let ghost before = buffer@;
    assert(line.spec_with(buffer@) =~= spec_line_start(before));
    while line.consumed < keys.len() && !line.done
        invariant
            line.consumed <= keys@.len(),
            line.len <= buffer@.len(),
            buffer@.len() == before.len(),
            line.spec_with(buffer@) == spec_line_after(before, keys@, line.consumed as nat),
        decreases keys@.len() - line.consumed,
    {
        let key: Key = keys[line.consumed];
        let ghost previous = line.spec_with(buffer@);
        let edit = edit_line(buffer, line.len, key);
        line.len = edit.len;
        push_echo(&mut line.echo, edit.echo);
        line.consumed += 1;
        line.done = edit.done;
        assert(line.spec_with(buffer@) == spec_line_step(previous, key));
    }
    proof {
        if line.done {
            lemma_line_ended(before, keys@, line.consumed as nat, keys@.len());
        }
    }
    line
}

/// The keyboard state before any byte arrived.
pub fn init() -> (state: KeyboardState)
    ensures
        state == (KeyboardState { scan_code: 0, is_pressed: false, is_shift: false }),
{
    KeyboardState { scan_code: 0, is_pressed: false, is_shift: false }
}

} // verus!
