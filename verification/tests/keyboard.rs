use nos::arch::x86::drivers::keyboard::data_ready;
use nos::arch::x86::drivers::keyboard::decode;
use nos::arch::x86::drivers::keyboard::edit_line;
use nos::arch::x86::drivers::keyboard::get_line;
use nos::arch::x86::drivers::keyboard::init;
use nos::arch::x86::drivers::keyboard::is_graphic;
use nos::arch::x86::drivers::keyboard::read_key;
use nos::arch::x86::drivers::keyboard::Echo;
use nos::arch::x86::drivers::keyboard::KeyboardState;
use nos::arch::x86::drivers::keyboard::DATA_PORT;
use nos::arch::x86::drivers::keyboard::LOWERCASE_KEYS;
use nos::arch::x86::drivers::keyboard::STATUS_PORT;
use nos::arch::x86::drivers::keyboard::UPPERCASE_KEYS;
use nos::hal::keyboard::Key;

const RELEASE: u8 = 0x80;

fn typed(text: &str) -> Vec<Key> {
    text.chars().map(Key::Char).collect()
}

#[test]
fn ports() {
    assert_eq!(STATUS_PORT, 0x64);
    assert_eq!(DATA_PORT, 0x60);
    assert!(data_ready(0x01));
    assert!(data_ready(0xFF));
    assert!(!data_ready(0x00));
    assert!(!data_ready(0xFE));
}

#[test]
fn scan_codes_name_keys() {
    let named = [
        (0x01u8, Key::Esc),
        (0x0E, Key::Backspace),
        (0x0F, Key::Tab),
        (0x1C, Key::Enter),
        (0x1D, Key::LCtrl),
        (0x2A, Key::LShift),
        (0x2B, Key::Backslash),
        (0x38, Key::LAlt),
        (0x39, Key::Space),
        (0x3A, Key::CapsLock),
        (0x4B, Key::LeftArrow),
        (0x60, Key::RightArrow),
        (0x48, Key::UpArrow),
        (0x50, Key::DownArrow),
    ];
    for code in 0..=255u8 {
        let expected = named.iter().find(|(c, _)| *c == code).map(|(_, k)| *k).unwrap_or(Key::Unknown);
        assert_eq!(Key::from(code), expected);
    }
}

#[test]
fn character_comes_on_release() {
    assert_eq!(decode(0x1E, false, false), Key::Char('a'));
    assert_eq!(decode(0x1E, false, true), Key::Char('A'));
    assert_eq!(decode(0x1E, true, false), Key::Unknown);
    assert_eq!(decode(0x1E, true, true), Key::Unknown);
}

#[test]
fn named_key_comes_on_press() {
    assert_eq!(decode(0x1C, true, false), Key::Enter);
    assert_eq!(decode(0x1C, false, false), Key::Unknown);
    assert_eq!(decode(0x0E, true, true), Key::Backspace);
    assert_eq!(decode(0x0E, false, true), Key::Unknown);
    assert_eq!(decode(0x39, true, false), Key::Space);
    assert_eq!(decode(0x2B, true, false), Key::Backslash);
    assert_eq!(decode(0x60, true, false), Key::RightArrow);
}

#[test]
fn shift_is_never_reported() {
    assert_eq!(decode(0x2A, true, false), Key::Unknown);
    assert_eq!(decode(0x2A, false, true), Key::Unknown);
}

#[test]
fn decode_follows_the_tables() {
    for code in 0..128u8 {
        if Key::from(code) != Key::Unknown {
            continue;
        }
        assert_eq!(decode(code, false, false), Key::Char(LOWERCASE_KEYS[code as usize]));
        assert_eq!(decode(code, false, true), Key::Char(UPPERCASE_KEYS[code as usize]));
        assert_eq!(decode(code, true, false), Key::Unknown);
    }
    assert_eq!(decode(0x02, false, false), Key::Char('1'));
    assert_eq!(decode(0x02, false, true), Key::Char('!'));
    assert_eq!(decode(0x35, false, false), Key::Char('/'));
    assert_eq!(decode(0x35, false, true), Key::Char('?'));
    assert_eq!(decode(0x7F, false, false), Key::Char('\0'));
    assert_eq!(decode(0x00, false, true), Key::Char('\0'));
}

#[test]
fn shift_press_sets_and_release_clears() {
    let mut state = init();
    assert_eq!(state, KeyboardState { scan_code: 0, is_pressed: false, is_shift: false });
    assert_eq!(read_key(&mut state, 0x2A), Key::Unknown);
    assert_eq!(state, KeyboardState { scan_code: 0x2A, is_pressed: true, is_shift: true });
    assert_eq!(read_key(&mut state, 0x2A | RELEASE), Key::Unknown);
    assert_eq!(state, KeyboardState { scan_code: 0x2A, is_pressed: false, is_shift: false });
}

#[test]
fn shift_selects_the_table() {
    let mut state = init();
    assert_eq!(read_key(&mut state, 0x1E), Key::Unknown);
    assert_eq!(read_key(&mut state, 0x1E | RELEASE), Key::Char('a'));
    assert_eq!(read_key(&mut state, 0x2A), Key::Unknown);
    assert_eq!(read_key(&mut state, 0x1E), Key::Unknown);
    assert_eq!(read_key(&mut state, 0x1E | RELEASE), Key::Char('A'));
    assert!(state.is_shift);
    assert_eq!(state.scan_code, 0x1E);
    assert!(!state.is_pressed);
    assert_eq!(read_key(&mut state, 0x2A | RELEASE), Key::Unknown);
    assert_eq!(read_key(&mut state, 0x1E | RELEASE), Key::Char('a'));
    // Other keys leave shift alone.
    assert_eq!(read_key(&mut state, 0x2A), Key::Unknown);
    assert_eq!(read_key(&mut state, 0x1C), Key::Enter);
    assert!(state.is_shift);
    assert_eq!(read_key(&mut state, 0x1C | RELEASE), Key::Unknown);
    assert!(state.is_shift);
    assert_eq!(nos::hal::keyboard::read_key(&mut state, 0x10 | RELEASE), Key::Char('Q'));
}

#[test]
fn graphic_characters() {
    assert!(is_graphic('!'));
    assert!(is_graphic('~'));
    assert!(is_graphic('a'));
    assert!(!is_graphic(' '));
    assert!(!is_graphic('\x7f'));
    assert!(!is_graphic('\0'));
    assert!(!is_graphic('\n'));
    assert!(!is_graphic('é'));
    for code in 0..=0x2FFu32 {
        let c = char::from_u32(code).unwrap();
        assert_eq!(is_graphic(c), c.is_ascii_graphic());
    }
}

#[test]
fn hello_and_enter() {
    let mut buffer = ['\0'; 8];
    let mut keys = typed("hello");
    keys.push(Key::Enter);
    let line = get_line(&mut buffer, &keys);
    assert!(line.done);
    assert_eq!(line.len, 5);
    assert_eq!(line.consumed, 6);
    assert_eq!(buffer, ['h', 'e', 'l', 'l', 'o', '\0', '\0', '\0']);
    assert_eq!(line.echo, vec!['h', 'e', 'l', 'l', 'o', '\n']);
}

#[test]
fn keys_after_enter_are_left() {
    let mut buffer = ['#'; 4];
    let keys = [Key::Char('a'), Key::Enter, Key::Char('b'), Key::Enter];
    let line = get_line(&mut buffer, &keys);
    assert!(line.done);
    assert_eq!(line.len, 1);
    assert_eq!(line.consumed, 2);
    assert_eq!(buffer, ['a', '#', '#', '#']);
    assert_eq!(line.echo, vec!['a', '\n']);
}

#[test]
fn line_without_end_is_not_done() {
    let mut buffer = ['\0'; 4];
    let line = nos::hal::keyboard::get_line(&mut buffer, &typed("ab"));
    assert!(!line.done);
    assert_eq!(line.len, 2);
    assert_eq!(line.consumed, 2);
    assert_eq!(line.echo, vec!['a', 'b']);
    let line = get_line(&mut buffer, &[]);
    assert!(!line.done);
    assert_eq!(line.len, 0);
    assert_eq!(line.consumed, 0);
    assert!(line.echo.is_empty());
    assert_eq!(buffer, ['a', 'b', '\0', '\0']);
}

#[test]
fn null_character_ends_the_line() {
    let mut buffer = ['\0'; 4];
    let keys = [Key::Char('a'), Key::Char('\0'), Key::Char('b')];
    let line = get_line(&mut buffer, &keys);
    assert!(line.done);
    assert_eq!(line.len, 1);
    assert_eq!(line.consumed, 2);
    assert_eq!(line.echo, vec!['a']);
}

#[test]
fn full_buffer_still_echoes() {
    let mut buffer = ['\0'; 3];
    let mut keys = typed("abcde");
    keys.push(Key::Space);
    keys.push(Key::Tab);
    keys.push(Key::Enter);
    let line = get_line(&mut buffer, &keys);
    assert!(line.done);
    assert_eq!(line.len, 3);
    assert_eq!(line.consumed, 8);
    assert_eq!(buffer, ['a', 'b', 'c']);
    assert_eq!(line.echo, vec!['a', 'b', 'c', 'd', 'e', ' ', '\n']);
}

#[test]
fn backspace_takes_the_last_character() {
    let mut buffer = ['\0'; 4];
    let keys =
        [Key::Backspace, Key::Char('a'), Key::Char('b'), Key::Backspace, Key::Char('c'), Key::Enter];
    let line = get_line(&mut buffer, &keys);
    assert!(line.done);
    assert_eq!(line.len, 2);
    assert_eq!(buffer, ['a', 'c', '\0', '\0']);
    assert_eq!(line.echo, vec!['a', 'b', '\x08', 'c', '\n']);
}

#[test]
fn backspace_on_an_empty_line_does_nothing() {
    let mut buffer = ['x'; 2];
    let edit = edit_line(&mut buffer, 0, Key::Backspace);
    assert_eq!(edit.len, 0);
    assert_eq!(edit.echo, Echo::Nothing);
    assert!(!edit.done);
    assert_eq!(buffer, ['x', 'x']);
}

#[test]
fn backspace_clears_the_place() {
    let mut buffer = ['x', 'y'];
    let edit = edit_line(&mut buffer, 2, Key::Backspace);
    assert_eq!(edit.len, 1);
    assert_eq!(edit.echo, Echo::Char('\x08'));
    assert_eq!(buffer, ['x', '\0']);
}

#[test]
fn tab_is_up_to_four_spaces() {
    let mut buffer = ['.'; 8];
    let edit = edit_line(&mut buffer, 1, Key::Tab);
    assert_eq!(edit.len, 5);
    assert_eq!(edit.echo, Echo::Spaces(4));
    assert_eq!(buffer, ['.', ' ', ' ', ' ', ' ', '.', '.', '.']);
    let edit = edit_line(&mut buffer, 6, Key::Tab);
    assert_eq!(edit.len, 8);
    assert_eq!(edit.echo, Echo::Spaces(2));
    assert_eq!(buffer, ['.', ' ', ' ', ' ', ' ', '.', ' ', ' ']);
    let edit = edit_line(&mut buffer, 8, Key::Tab);
    assert_eq!(edit.len, 8);
    assert_eq!(edit.echo, Echo::Spaces(0));
    assert!(!edit.done);
}

#[test]
fn tab_echo_in_a_line() {
    let mut buffer = ['\0'; 6];
    let keys = [Key::Char('a'), Key::Tab, Key::Tab, Key::Enter];
    let line = get_line(&mut buffer, &keys);
    assert_eq!(line.len, 6);
    assert_eq!(buffer, ['a', ' ', ' ', ' ', ' ', ' ']);
    assert_eq!(line.echo, vec!['a', ' ', ' ', ' ', ' ', ' ', '\n']);
}

#[test]
fn space_is_stored_while_there_is_room() {
    let mut buffer = ['.'; 1];
    let edit = edit_line(&mut buffer, 0, Key::Space);
    assert_eq!((edit.len, edit.echo, edit.done), (1, Echo::Char(' '), false));
    assert_eq!(buffer, [' ']);
    let edit = edit_line(&mut buffer, 1, Key::Space);
    assert_eq!((edit.len, edit.echo, edit.done), (1, Echo::Char(' '), false));
}

#[test]
fn character_that_is_not_graphic_is_echoed_only() {
    let mut buffer = ['.'; 2];
    let edit = edit_line(&mut buffer, 0, Key::Char('\t'));
    assert_eq!((edit.len, edit.echo, edit.done), (0, Echo::Char('\t'), false));
    let edit = edit_line(&mut buffer, 0, Key::Char(' '));
    assert_eq!((edit.len, edit.echo, edit.done), (0, Echo::Char(' '), false));
    assert_eq!(buffer, ['.', '.']);
}

#[test]
fn other_keys_do_nothing() {
    let mut buffer = ['.'; 2];
    for key in [
        Key::Esc,
        Key::LCtrl,
        Key::LShift,
        Key::Backslash,
        Key::LAlt,
        Key::CapsLock,
        Key::LeftArrow,
        Key::RightArrow,
        Key::UpArrow,
        Key::DownArrow,
        Key::Unknown,
    ] {
        let edit = edit_line(&mut buffer, 1, key);
        assert_eq!((edit.len, edit.echo, edit.done), (1, Echo::Nothing, false));
    }
    assert_eq!(buffer, ['.', '.']);
}

#[test]
fn enter_and_null_end_the_line() {
    let mut buffer = ['.'; 2];
    let edit = edit_line(&mut buffer, 1, Key::Enter);
    assert_eq!((edit.len, edit.echo, edit.done), (1, Echo::Char('\n'), true));
    let edit = edit_line(&mut buffer, 1, Key::Char('\0'));
    assert_eq!((edit.len, edit.echo, edit.done), (1, Echo::Nothing, true));
    assert_eq!(buffer, ['.', '.']);
}

#[test]
fn line_from_the_keyboard() {
    // h, i, shift, 1 with shift, shift up, Enter: each key down and up.
    let bytes = [0x23u8, 0xA3, 0x17, 0x97, 0x2A, 0x02, 0x82, 0xAA, 0x1C, 0x9C];
    let mut state = init();
    let keys: Vec<Key> = bytes.iter().map(|b| read_key(&mut state, *b)).collect();
    let mut buffer = ['\0'; 8];
    let line = get_line(&mut buffer, &keys);
    assert!(line.done);
    assert_eq!(line.consumed, 9);
    assert_eq!(line.len, 3);
    assert_eq!(&buffer[0..3], &['h', 'i', '!']);
    assert_eq!(line.echo, vec!['h', 'i', '!', '\n']);
}
