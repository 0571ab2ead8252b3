use vstd::prelude::*;

use crate::labels::spec_key_name;
use crate::text::decimal;

verus! {

/// A key of the keyboard as the Windows window reports it, one variant for each key that
/// the window's toolkit names.
#[derive(Clone, Copy, Debug, PartialEq, Eq, Structural)]
pub enum RecordableKey {
    ArrowDown,
    ArrowLeft,
    ArrowRight,
    ArrowUp,
    Escape,
    Tab,
    Backspace,
    Enter,
    Space,
    Insert,
    Delete,
    Home,
    End,
    PageUp,
    PageDown,
    Copy,
    Cut,
    Paste,
    Colon,
    Comma,
    Backslash,
    Slash,
    Pipe,
    Questionmark,
    OpenBracket,
    CloseBracket,
    Backtick,
    Minus,
    Period,
    Plus,
    Equals,
    Semicolon,
    Num0,
    Num1,
    Num2,
    Num3,
    Num4,
    Num5,
    Num6,
    Num7,
    Num8,
    Num9,
    A,
    B,
    C,
    D,
    E,
    F,
    G,
    H,
    I,
    J,
    K,
    L,
    M,
    N,
    O,
    P,
    Q,
    R,
    S,
    T,
    U,
    V,
    W,
    X,
    Y,
    Z,
    F1,
    F2,
    F3,
    F4,
    F5,
    F6,
    F7,
    F8,
    F9,
    F10,
    F11,
    F12,
    F13,
    F14,
    F15,
    F16,
    F17,
    F18,
    F19,
    F20,
    F21,
    F22,
    F23,
    F24,
    F25,
    F26,
    F27,
    F28,
    F29,
    F30,
    F31,
    F32,
    F33,
    F34,
    F35,
}

/// The character printed on a digit or letter key.
pub open spec fn key_char(key: RecordableKey) -> Option<char> {
    match key {
        RecordableKey::Num0 => Some('0'),
        RecordableKey::Num1 => Some('1'),
        RecordableKey::Num2 => Some('2'),
        RecordableKey::Num3 => Some('3'),
        RecordableKey::Num4 => Some('4'),
        RecordableKey::Num5 => Some('5'),
        RecordableKey::Num6 => Some('6'),
        RecordableKey::Num7 => Some('7'),
        RecordableKey::Num8 => Some('8'),
        RecordableKey::Num9 => Some('9'),
        RecordableKey::A => Some('A'),
        RecordableKey::B => Some('B'),
        RecordableKey::C => Some('C'),
        RecordableKey::D => Some('D'),
        RecordableKey::E => Some('E'),
        RecordableKey::F => Some('F'),
        RecordableKey::G => Some('G'),
        RecordableKey::H => Some('H'),
        RecordableKey::I => Some('I'),
        RecordableKey::J => Some('J'),
        RecordableKey::K => Some('K'),
        RecordableKey::L => Some('L'),
        RecordableKey::M => Some('M'),
        RecordableKey::N => Some('N'),
        RecordableKey::O => Some('O'),
        RecordableKey::P => Some('P'),
        RecordableKey::Q => Some('Q'),
        RecordableKey::R => Some('R'),
        RecordableKey::S => Some('S'),
        RecordableKey::T => Some('T'),
        RecordableKey::U => Some('U'),
        RecordableKey::V => Some('V'),
        RecordableKey::W => Some('W'),
        RecordableKey::X => Some('X'),
        RecordableKey::Y => Some('Y'),
        RecordableKey::Z => Some('Z'),
        _ => None,
    }
}

/// The number of a function key.
pub open spec fn function_number(key: RecordableKey) -> Option<nat> {
    match key {
        RecordableKey::F1 => Some(1nat),
        RecordableKey::F2 => Some(2nat),
        RecordableKey::F3 => Some(3nat),
        RecordableKey::F4 => Some(4nat),
        RecordableKey::F5 => Some(5nat),
        RecordableKey::F6 => Some(6nat),
        RecordableKey::F7 => Some(7nat),
        RecordableKey::F8 => Some(8nat),
        RecordableKey::F9 => Some(9nat),
        RecordableKey::F10 => Some(10nat),
        RecordableKey::F11 => Some(11nat),
        RecordableKey::F12 => Some(12nat),
        RecordableKey::F13 => Some(13nat),
        RecordableKey::F14 => Some(14nat),
        RecordableKey::F15 => Some(15nat),
        RecordableKey::F16 => Some(16nat),
        RecordableKey::F17 => Some(17nat),
        RecordableKey::F18 => Some(18nat),
        RecordableKey::F19 => Some(19nat),
        RecordableKey::F20 => Some(20nat),
        RecordableKey::F21 => Some(21nat),
        RecordableKey::F22 => Some(22nat),
        RecordableKey::F23 => Some(23nat),
        RecordableKey::F24 => Some(24nat),
        RecordableKey::F25 => Some(25nat),
        RecordableKey::F26 => Some(26nat),
        RecordableKey::F27 => Some(27nat),
        RecordableKey::F28 => Some(28nat),
        RecordableKey::F29 => Some(29nat),
        RecordableKey::F30 => Some(30nat),
        RecordableKey::F31 => Some(31nat),
        RecordableKey::F32 => Some(32nat),
        RecordableKey::F33 => Some(33nat),
        RecordableKey::F34 => Some(34nat),
        RecordableKey::F35 => Some(35nat),
        _ => None,
    }
}

/// The virtual-key code of a key that is neither a digit, a letter nor a function key;
/// the clipboard keys have none. A punctuation key and its shifted sign share a code.
pub open spec fn named_key_code(key: RecordableKey) -> Option<u32> {
    match key {
        RecordableKey::ArrowDown => Some(0x28),
        RecordableKey::ArrowLeft => Some(0x25),
        RecordableKey::ArrowRight => Some(0x27),
        RecordableKey::ArrowUp => Some(0x26),
        RecordableKey::Escape => Some(0x1b),
        RecordableKey::Tab => Some(0x09),
        RecordableKey::Backspace => Some(0x08),
        RecordableKey::Enter => Some(0x0d),
        RecordableKey::Space => Some(0x20),
        RecordableKey::Insert => Some(0x2d),
        RecordableKey::Delete => Some(0x2e),
        RecordableKey::Home => Some(0x24),
        RecordableKey::End => Some(0x23),
        RecordableKey::PageUp => Some(0x21),
        RecordableKey::PageDown => Some(0x22),
        RecordableKey::Colon => Some(0xba),
        RecordableKey::Comma => Some(0xbc),
        RecordableKey::Backslash => Some(0xdc),
        RecordableKey::Slash => Some(0xbf),
        RecordableKey::Pipe => Some(0xdc),
        RecordableKey::Questionmark => Some(0xbf),
        RecordableKey::OpenBracket => Some(0xdb),
        RecordableKey::CloseBracket => Some(0xdd),
        RecordableKey::Backtick => Some(0xc0),
        RecordableKey::Minus => Some(0xbd),
        RecordableKey::Period => Some(0xbe),
        RecordableKey::Plus => Some(0xbb),
        RecordableKey::Equals => Some(0xbb),
        RecordableKey::Semicolon => Some(0xba),
        _ => None,
    }
}

/// The virtual-key code that Windows input sends for a key: a digit or a letter is the
/// code of its character, function keys F1 to F24 are 0x70 to 0x87, and the other keys
/// are listed by name. Keys without a code cannot be recorded.
pub open spec fn spec_key_to_virtual_key(key: RecordableKey) -> Option<u32> {
    match key_char(key) {
        Some(c) => Some(c as u32),
        None => match function_number(key) {
            Some(n) => if n <= 24 {
                Some((0x6f + n) as u32)
            } else {
                None
            },
            None => named_key_code(key),
        },
    }
}

/// The virtual-key code that Windows input sends for a key, if it has one.
pub fn key_to_virtual_key(key: RecordableKey) -> (r: Option<u32>)
    ensures
        r == spec_key_to_virtual_key(key),
        r matches Some(code) ==> 1 <= code <= 255,
{
    match key {
        RecordableKey::ArrowDown => Some(0x28),
        RecordableKey::ArrowLeft => Some(0x25),
        RecordableKey::ArrowRight => Some(0x27),
        RecordableKey::ArrowUp => Some(0x26),
        RecordableKey::Escape => Some(0x1b),
        RecordableKey::Tab => Some(0x09),
        RecordableKey::Backspace => Some(0x08),
        RecordableKey::Enter => Some(0x0d),
        RecordableKey::Space => Some(0x20),
        RecordableKey::Insert => Some(0x2d),
        RecordableKey::Delete => Some(0x2e),
        RecordableKey::Home => Some(0x24),
        RecordableKey::End => Some(0x23),
        RecordableKey::PageUp => Some(0x21),
        RecordableKey::PageDown => Some(0x22),
        RecordableKey::Copy => None,
        RecordableKey::Cut => None,
        RecordableKey::Paste => None,
        RecordableKey::Colon => Some(0xba),
        RecordableKey::Comma => Some(0xbc),
        RecordableKey::Backslash => Some(0xdc),
        RecordableKey::Slash => Some(0xbf),
        RecordableKey::Pipe => Some(0xdc),
        RecordableKey::Questionmark => Some(0xbf),
        RecordableKey::OpenBracket => Some(0xdb),
        RecordableKey::CloseBracket => Some(0xdd),
        RecordableKey::Backtick => Some(0xc0),
        RecordableKey::Minus => Some(0xbd),
        RecordableKey::Period => Some(0xbe),
        RecordableKey::Plus => Some(0xbb),
        RecordableKey::Equals => Some(0xbb),
        RecordableKey::Semicolon => Some(0xba),
        RecordableKey::Num0 => Some(0x30),
        RecordableKey::Num1 => Some(0x31),
        RecordableKey::Num2 => Some(0x32),
        RecordableKey::Num3 => Some(0x33),
        RecordableKey::Num4 => Some(0x34),
        RecordableKey::Num5 => Some(0x35),
        RecordableKey::Num6 => Some(0x36),
        RecordableKey::Num7 => Some(0x37),
        RecordableKey::Num8 => Some(0x38),
        RecordableKey::Num9 => Some(0x39),
        RecordableKey::A => Some(0x41),
        RecordableKey::B => Some(0x42),
        RecordableKey::C => Some(0x43),
        RecordableKey::D => Some(0x44),
        RecordableKey::E => Some(0x45),
        RecordableKey::F => Some(0x46),
        RecordableKey::G => Some(0x47),
        RecordableKey::H => Some(0x48),
        RecordableKey::I => Some(0x49),
        RecordableKey::J => Some(0x4a),
        RecordableKey::K => Some(0x4b),
        RecordableKey::L => Some(0x4c),
        RecordableKey::M => Some(0x4d),
        RecordableKey::N => Some(0x4e),
        RecordableKey::O => Some(0x4f),
        RecordableKey::P => Some(0x50),
        RecordableKey::Q => Some(0x51),
        RecordableKey::R => Some(0x52),
        RecordableKey::S => Some(0x53),
        RecordableKey::T => Some(0x54),
        RecordableKey::U => Some(0x55),
        RecordableKey::V => Some(0x56),
        RecordableKey::W => Some(0x57),
        RecordableKey::X => Some(0x58),
        RecordableKey::Y => Some(0x59),
        RecordableKey::Z => Some(0x5a),
        RecordableKey::F1 => Some(0x70),
        RecordableKey::F2 => Some(0x71),
        RecordableKey::F3 => Some(0x72),
        RecordableKey::F4 => Some(0x73),
        RecordableKey::F5 => Some(0x74),
        RecordableKey::F6 => Some(0x75),
        RecordableKey::F7 => Some(0x76),
        RecordableKey::F8 => Some(0x77),
        RecordableKey::F9 => Some(0x78),
        RecordableKey::F10 => Some(0x79),
        RecordableKey::F11 => Some(0x7a),
        RecordableKey::F12 => Some(0x7b),
        RecordableKey::F13 => Some(0x7c),
        RecordableKey::F14 => Some(0x7d),
        RecordableKey::F15 => Some(0x7e),
        RecordableKey::F16 => Some(0x7f),
        RecordableKey::F17 => Some(0x80),
        RecordableKey::F18 => Some(0x81),
        RecordableKey::F19 => Some(0x82),
        RecordableKey::F20 => Some(0x83),
        RecordableKey::F21 => Some(0x84),
        RecordableKey::F22 => Some(0x85),
        RecordableKey::F23 => Some(0x86),
        RecordableKey::F24 => Some(0x87),
        RecordableKey::F25 => None,
        RecordableKey::F26 => None,
        RecordableKey::F27 => None,
        RecordableKey::F28 => None,
        RecordableKey::F29 => None,
        RecordableKey::F30 => None,
        RecordableKey::F31 => None,
        RecordableKey::F32 => None,
        RecordableKey::F33 => None,
        RecordableKey::F34 => None,
        RecordableKey::F35 => None,
    }
}

/// A recorded digit or letter key is named by its character, and a recorded function key
/// by `F` and its number.
pub proof fn lemma_recorded_keys_are_named(key: RecordableKey)
    ensures
        match key_char(key) {
            Some(c) => spec_key_to_virtual_key(key) == Some(c as u32) && spec_key_name(c as u32)
                == seq![c],
            None => true,
        },
        match function_number(key) {
            Some(n) => n <= 24 ==> spec_key_to_virtual_key(key) == Some((0x6f + n) as u32)
                && spec_key_name((0x6f + n) as u32) == seq!['F'] + decimal(n),
            None => true,
        },
{
}

/// Every other key records a code that the window labels with the key's own name, a
/// punctuation key sharing its name with its shifted sign; the clipboard keys record
/// nothing.
pub proof fn lemma_named_keys_record_their_names(key: RecordableKey)
    requires
        key_char(key) is None,
        function_number(key) is None,
    ensures
        ({
            let code = spec_key_to_virtual_key(key).unwrap();
            match key {
            RecordableKey::Backspace => spec_key_name(code) == "Backspace"@,
            RecordableKey::Tab => spec_key_name(code) == "Tab"@,
            RecordableKey::Enter => spec_key_name(code) == "Enter"@,
            RecordableKey::Escape => spec_key_name(code) == "Escape"@,
            RecordableKey::Space => spec_key_name(code) == "Space"@,
            RecordableKey::PageUp => spec_key_name(code) == "Page Up"@,
            RecordableKey::PageDown => spec_key_name(code) == "Page Down"@,
            RecordableKey::End => spec_key_name(code) == "End"@,
            RecordableKey::Home => spec_key_name(code) == "Home"@,
            RecordableKey::ArrowLeft => spec_key_name(code) == "Left"@,
            RecordableKey::ArrowUp => spec_key_name(code) == "Up"@,
            RecordableKey::ArrowRight => spec_key_name(code) == "Right"@,
            RecordableKey::ArrowDown => spec_key_name(code) == "Down"@,
            RecordableKey::Insert => spec_key_name(code) == "Insert"@,
            RecordableKey::Delete => spec_key_name(code) == "Delete"@,
            RecordableKey::Semicolon => spec_key_name(code) == ";"@,
            RecordableKey::Colon => spec_key_name(code) == ";"@,
            RecordableKey::Plus => spec_key_name(code) == "="@,
            RecordableKey::Equals => spec_key_name(code) == "="@,
            RecordableKey::Comma => spec_key_name(code) == ","@,
            RecordableKey::Minus => spec_key_name(code) == "-"@,
            RecordableKey::Period => spec_key_name(code) == "."@,
            RecordableKey::Slash => spec_key_name(code) == "/"@,
            RecordableKey::Questionmark => spec_key_name(code) == "/"@,
            RecordableKey::Backtick => spec_key_name(code) == "`"@,
            RecordableKey::OpenBracket => spec_key_name(code) == "["@,
            RecordableKey::Backslash => spec_key_name(code) == "\\"@,
            RecordableKey::Pipe => spec_key_name(code) == "\\"@,
            RecordableKey::CloseBracket => spec_key_name(code) == "]"@,
            RecordableKey::Copy | RecordableKey::Cut | RecordableKey::Paste => spec_key_to_virtual_key(key) is None,
            _ => false,
            }
        }),
        spec_key_to_virtual_key(key) is Some ==> 1 <= spec_key_to_virtual_key(key).unwrap() <= 255,
{
}

} // verus!
