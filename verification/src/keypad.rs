//! Matrix keypad decoding: raw row-scan bytes to switches, and switches
//! to keys under the shift and alpha modifier regimes.
//!
//! Scanning the matrix itself — driving row pins and sampling columns —
//! is hardware work done outside this crate; it hands in one byte per
//! row, a set bit per pressed column, and everything from there on is
//! decided and proved here. The keypad has 46 switches, so a scan never
//! yields more than 46 pressed switches; that bound is proved below, not
//! assumed.

use vstd::prelude::*;

verus! {

/// One physical switch of the matrix, named by row and column.
#[derive(Clone, Copy, Debug, PartialEq, Eq, Structural)]
pub enum Switch {
    R0C1,
    R0C2,
    R0C3,
    R0C4,
    R0C5,
    R0C6,
    R1C1,
    R1C3,
    R2C1,
    R2C2,
    R2C3,
    R2C4,
    R2C5,
    R2C6,
    R3C1,
    R3C2,
    R3C3,
    R3C4,
    R3C5,
    R3C6,
    R4C1,
    R4C2,
    R4C3,
    R4C4,
    R4C5,
    R4C6,
    R5C1,
    R5C2,
    R5C3,
    R5C4,
    R5C5,
    R6C1,
    R6C2,
    R6C3,
    R6C4,
    R6C5,
    R7C1,
    R7C2,
    R7C3,
    R7C4,
    R7C5,
    R8C1,
    R8C2,
    R8C3,
    R8C4,
    R8C5,
    NONE,
}

/// The scan code of a switch: row in the high nibble, column in the low.
pub open spec fn spec_switch_code(s: Switch) -> u8 {
    match s {
        Switch::R0C1 => 0x01,
        Switch::R0C2 => 0x02,
        Switch::R0C3 => 0x03,
        Switch::R0C4 => 0x04,
        Switch::R0C5 => 0x05,
        Switch::R0C6 => 0x06,
        Switch::R1C1 => 0x11,
        Switch::R1C3 => 0x13,
        Switch::R2C1 => 0x21,
        Switch::R2C2 => 0x22,
        Switch::R2C3 => 0x23,
        Switch::R2C4 => 0x24,
        Switch::R2C5 => 0x25,
        Switch::R2C6 => 0x26,
        Switch::R3C1 => 0x31,
        Switch::R3C2 => 0x32,
        Switch::R3C3 => 0x33,
        Switch::R3C4 => 0x34,
        Switch::R3C5 => 0x35,
        Switch::R3C6 => 0x36,
        Switch::R4C1 => 0x41,
        Switch::R4C2 => 0x42,
        Switch::R4C3 => 0x43,
        Switch::R4C4 => 0x44,
        Switch::R4C5 => 0x45,
        Switch::R4C6 => 0x46,
        Switch::R5C1 => 0x51,
        Switch::R5C2 => 0x52,
        Switch::R5C3 => 0x53,
        Switch::R5C4 => 0x54,
        Switch::R5C5 => 0x55,
        Switch::R6C1 => 0x61,
        Switch::R6C2 => 0x62,
        Switch::R6C3 => 0x63,
        Switch::R6C4 => 0x64,
        Switch::R6C5 => 0x65,
        Switch::R7C1 => 0x71,
        Switch::R7C2 => 0x72,
        Switch::R7C3 => 0x73,
        Switch::R7C4 => 0x74,
        Switch::R7C5 => 0x75,
        Switch::R8C1 => 0x81,
        Switch::R8C2 => 0x82,
        Switch::R8C3 => 0x83,
        Switch::R8C4 => 0x84,
        Switch::R8C5 => 0x85,
        Switch::NONE => 0xFF,
    }
}

/// Whether a scan code names one of the 46 switches.
pub open spec fn spec_valid_code(c: int) -> bool {
    c == 0x01 || c == 0x02 || c == 0x03 || c == 0x04 || c == 0x05 || c == 0x06 || c == 0x11 || c == 0x13 || c == 0x21 || c == 0x22 || c == 0x23 || c == 0x24 || c == 0x25 || c == 0x26 || c == 0x31 || c == 0x32 || c == 0x33 || c == 0x34 || c == 0x35 || c == 0x36 || c == 0x41 || c == 0x42 || c == 0x43 || c == 0x44 || c == 0x45 || c == 0x46 || c == 0x51 || c == 0x52 || c == 0x53 || c == 0x54 || c == 0x55 || c == 0x61 || c == 0x62 || c == 0x63 || c == 0x64 || c == 0x65 || c == 0x71 || c == 0x72 || c == 0x73 || c == 0x74 || c == 0x75 || c == 0x81 || c == 0x82 || c == 0x83 || c == 0x84 || c == 0x85
}

/// The switch a valid scan code names.
pub open spec fn spec_switch_of(c: int) -> Switch {
    if c == 0x01 {
        Switch::R0C1
    } else if c == 0x02 {
        Switch::R0C2
    } else if c == 0x03 {
        Switch::R0C3
    } else if c == 0x04 {
        Switch::R0C4
    } else if c == 0x05 {
        Switch::R0C5
    } else if c == 0x06 {
        Switch::R0C6
    } else if c == 0x11 {
        Switch::R1C1
    } else if c == 0x13 {
        Switch::R1C3
    } else if c == 0x21 {
        Switch::R2C1
    } else if c == 0x22 {
        Switch::R2C2
    } else if c == 0x23 {
        Switch::R2C3
    } else if c == 0x24 {
        Switch::R2C4
    } else if c == 0x25 {
        Switch::R2C5
    } else if c == 0x26 {
        Switch::R2C6
    } else if c == 0x31 {
        Switch::R3C1
    } else if c == 0x32 {
        Switch::R3C2
    } else if c == 0x33 {
        Switch::R3C3
    } else if c == 0x34 {
        Switch::R3C4
    } else if c == 0x35 {
        Switch::R3C5
    } else if c == 0x36 {
        Switch::R3C6
    } else if c == 0x41 {
        Switch::R4C1
    } else if c == 0x42 {
        Switch::R4C2
    } else if c == 0x43 {
        Switch::R4C3
    } else if c == 0x44 {
        Switch::R4C4
    } else if c == 0x45 {
        Switch::R4C5
    } else if c == 0x46 {
        Switch::R4C6
    } else if c == 0x51 {
        Switch::R5C1
    } else if c == 0x52 {
        Switch::R5C2
    } else if c == 0x53 {
        Switch::R5C3
    } else if c == 0x54 {
        Switch::R5C4
    } else if c == 0x55 {
        Switch::R5C5
    } else if c == 0x61 {
        Switch::R6C1
    } else if c == 0x62 {
        Switch::R6C2
    } else if c == 0x63 {
        Switch::R6C3
    } else if c == 0x64 {
        Switch::R6C4
    } else if c == 0x65 {
        Switch::R6C5
    } else if c == 0x71 {
        Switch::R7C1
    } else if c == 0x72 {
        Switch::R7C2
    } else if c == 0x73 {
        Switch::R7C3
    } else if c == 0x74 {
        Switch::R7C4
    } else if c == 0x75 {
        Switch::R7C5
    } else if c == 0x81 {
        Switch::R8C1
    } else if c == 0x82 {
        Switch::R8C2
    } else if c == 0x83 {
        Switch::R8C3
    } else if c == 0x84 {
        Switch::R8C4
    } else if c == 0x85 {
        Switch::R8C5
    } else {
        Switch::NONE
    }
}

/// Decodes a scan code, `None` for a code no switch carries.
pub fn switch_from_code(c: u8) -> (r: Option<Switch>)
    ensures
        spec_valid_code(c as int) ==> r == Some(spec_switch_of(c as int)),
        !spec_valid_code(c as int) ==> r is None,
{
    match c {
        0x01 => Some(Switch::R0C1),
        0x02 => Some(Switch::R0C2),
        0x03 => Some(Switch::R0C3),
        0x04 => Some(Switch::R0C4),
        0x05 => Some(Switch::R0C5),
        0x06 => Some(Switch::R0C6),
        0x11 => Some(Switch::R1C1),
        0x13 => Some(Switch::R1C3),
        0x21 => Some(Switch::R2C1),
        0x22 => Some(Switch::R2C2),
        0x23 => Some(Switch::R2C3),
        0x24 => Some(Switch::R2C4),
        0x25 => Some(Switch::R2C5),
        0x26 => Some(Switch::R2C6),
        0x31 => Some(Switch::R3C1),
        0x32 => Some(Switch::R3C2),
        0x33 => Some(Switch::R3C3),
        0x34 => Some(Switch::R3C4),
        0x35 => Some(Switch::R3C5),
        0x36 => Some(Switch::R3C6),
        0x41 => Some(Switch::R4C1),
        0x42 => Some(Switch::R4C2),
        0x43 => Some(Switch::R4C3),
        0x44 => Some(Switch::R4C4),
        0x45 => Some(Switch::R4C5),
        0x46 => Some(Switch::R4C6),
        0x51 => Some(Switch::R5C1),
        0x52 => Some(Switch::R5C2),
        0x53 => Some(Switch::R5C3),
        0x54 => Some(Switch::R5C4),
        0x55 => Some(Switch::R5C5),
        0x61 => Some(Switch::R6C1),
        0x62 => Some(Switch::R6C2),
        0x63 => Some(Switch::R6C3),
        0x64 => Some(Switch::R6C4),
        0x65 => Some(Switch::R6C5),
        0x71 => Some(Switch::R7C1),
        0x72 => Some(Switch::R7C2),
        0x73 => Some(Switch::R7C3),
        0x74 => Some(Switch::R7C4),
        0x75 => Some(Switch::R7C5),
        0x81 => Some(Switch::R8C1),
        0x82 => Some(Switch::R8C2),
        0x83 => Some(Switch::R8C3),
        0x84 => Some(Switch::R8C4),
        0x85 => Some(Switch::R8C5),
        _ => None,
    }
}

/// One key meaning, after the modifier regime is applied.
#[derive(Clone, Copy, Debug, PartialEq, Eq, Structural)]
pub enum Key {
    Left,
    Up,
    Down,
    Right,
    Okay,
    Back,
    Home,
    Power,
    Shift,
    Alpha,
    AlphaLock,
    XNT,
    Var,
    Toolbox,
    Delete,
    Euler,
    Ln,
    Log,
    Imaginary,
    Comma,
    Pow,
    Sin,
    Cos,
    Tan,
    Pi,
    Sqrt,
    Square,
    Seven,
    Eight,
    Nine,
    LBracket,
    RBracket,
    Four,
    Five,
    Six,
    Multiply,
    Divide,
    One,
    Two,
    Three,
    Add,
    Subtract,
    Zero,
    Dot,
    EE,
    Ans,
    EXE,
    Cut,
    Copy,
    Paste,
    Clear,
    RSqBracket,
    LSqBracket,
    RCurlyBrace,
    LCurlyBrace,
    Underscore,
    Sto,
    ASin,
    ACos,
    ATan,
    Equals,
    Less,
    Greater,
    Colon,
    SemiColon,
    Quote,
    Percent,
    A,
    B,
    C,
    D,
    E,
    F,
    G,
    H,
    I,
    J,
    K,
    L,
    M,
    N,
    O,
    P,
    Q,
    R,
    S,
    T,
    U,
    V,
    W,
    X,
    Y,
    Z,
    Space,
    Question,
    Exclamation,
    NONE,
}

/// The key of a switch with no modifier held.
pub open spec fn spec_to_key(s: Switch) -> Key {
    match s {
        Switch::R0C1 => Key::Left,
        Switch::R0C2 => Key::Up,
        Switch::R0C3 => Key::Down,
        Switch::R0C4 => Key::Right,
        Switch::R0C5 => Key::Okay,
        Switch::R0C6 => Key::Back,
        Switch::R1C1 => Key::Home,
        Switch::R1C3 => Key::Power,
        Switch::R2C1 => Key::Shift,
        Switch::R2C2 => Key::Alpha,
        Switch::R2C3 => Key::XNT,
        Switch::R2C4 => Key::Var,
        Switch::R2C5 => Key::Toolbox,
        Switch::R2C6 => Key::Delete,
        Switch::R3C1 => Key::Euler,
        Switch::R3C2 => Key::Ln,
        Switch::R3C3 => Key::Log,
        Switch::R3C4 => Key::Imaginary,
        Switch::R3C5 => Key::Comma,
        Switch::R3C6 => Key::Pow,
        Switch::R4C1 => Key::Sin,
        Switch::R4C2 => Key::Cos,
        Switch::R4C3 => Key::Tan,
        Switch::R4C4 => Key::Pi,
        Switch::R4C5 => Key::Sqrt,
        Switch::R4C6 => Key::Square,
        Switch::R5C1 => Key::Seven,
        Switch::R5C2 => Key::Eight,
        Switch::R5C3 => Key::Nine,
        Switch::R5C4 => Key::LBracket,
        Switch::R5C5 => Key::RBracket,
        Switch::R6C1 => Key::Four,
        Switch::R6C2 => Key::Five,
        Switch::R6C3 => Key::Six,
        Switch::R6C4 => Key::Multiply,
        Switch::R6C5 => Key::Divide,
        Switch::R7C1 => Key::One,
        Switch::R7C2 => Key::Two,
        Switch::R7C3 => Key::Three,
        Switch::R7C4 => Key::Add,
        Switch::R7C5 => Key::Subtract,
        Switch::R8C1 => Key::Zero,
        Switch::R8C2 => Key::Dot,
        Switch::R8C3 => Key::EE,
        Switch::R8C4 => Key::Ans,
        Switch::R8C5 => Key::EXE,
        Switch::NONE => Key::NONE,
    }
}

/// The key of a switch with shift held: the shifted band, any other
/// switch falling back to its plain key.
pub open spec fn spec_to_key_shift(s: Switch) -> Key {
    match s {
        Switch::R2C2 => Key::AlphaLock,
        Switch::R2C3 => Key::Cut,
        Switch::R2C4 => Key::Copy,
        Switch::R2C5 => Key::Paste,
        Switch::R2C6 => Key::Clear,
        Switch::R3C1 => Key::RSqBracket,
        Switch::R3C2 => Key::LSqBracket,
        Switch::R3C3 => Key::RCurlyBrace,
        Switch::R3C4 => Key::LCurlyBrace,
        Switch::R3C5 => Key::Underscore,
        Switch::R3C6 => Key::Sto,
        Switch::R4C1 => Key::ASin,
        Switch::R4C2 => Key::ACos,
        Switch::R4C3 => Key::ATan,
        Switch::R4C4 => Key::Equals,
        Switch::R4C5 => Key::Less,
        Switch::R4C6 => Key::Greater,
        _ => spec_to_key(s),
    }
}

/// The key of a switch with alpha held: the letter band, any other
/// switch falling back to the shift or plain mapping.
pub open spec fn spec_to_key_alpha(s: Switch, shift: bool) -> Key {
    match s {
        Switch::R2C3 => Key::Colon,
        Switch::R2C4 => Key::SemiColon,
        Switch::R2C5 => Key::Quote,
        Switch::R2C6 => Key::Percent,
        Switch::R3C1 => Key::A,
        Switch::R3C2 => Key::B,
        Switch::R3C3 => Key::C,
        Switch::R3C4 => Key::D,
        Switch::R3C5 => Key::E,
        Switch::R3C6 => Key::F,
        Switch::R4C1 => Key::G,
        Switch::R4C2 => Key::H,
        Switch::R4C3 => Key::I,
        Switch::R4C4 => Key::J,
        Switch::R4C5 => Key::K,
        Switch::R4C6 => Key::L,
        Switch::R5C1 => Key::M,
        Switch::R5C2 => Key::N,
        Switch::R5C3 => Key::O,
        Switch::R5C4 => Key::P,
        Switch::R5C5 => Key::Q,
        Switch::R6C1 => Key::R,
        Switch::R6C2 => Key::S,
        Switch::R6C3 => Key::T,
        Switch::R6C4 => Key::U,
        Switch::R6C5 => Key::V,
        Switch::R7C1 => Key::W,
        Switch::R7C2 => Key::X,
        Switch::R7C3 => Key::Y,
        Switch::R7C4 => Key::Z,
        Switch::R7C5 => Key::Space,
        Switch::R8C1 => Key::Question,
        Switch::R8C2 => Key::Exclamation,
        _ => if shift {
            spec_to_key_shift(s)
        } else {
            spec_to_key(s)
        },
    }
}

impl Switch {
    /// The key this switch means with no modifier held.
    pub fn to_key(&self) -> (r: Key)
        ensures
            r == spec_to_key(*self),
    {
        match self {
            Self::R0C1 => Key::Left,
            Self::R0C2 => Key::Up,
            Self::R0C3 => Key::Down,
            Self::R0C4 => Key::Right,
            Self::R0C5 => Key::Okay,
            Self::R0C6 => Key::Back,
            Self::R1C1 => Key::Home,
            Self::R1C3 => Key::Power,
            Self::R2C1 => Key::Shift,
            Self::R2C2 => Key::Alpha,
            Self::R2C3 => Key::XNT,
            Self::R2C4 => Key::Var,
            Self::R2C5 => Key::Toolbox,
            Self::R2C6 => Key::Delete,
            Self::R3C1 => Key::Euler,
            Self::R3C2 => Key::Ln,
            Self::R3C3 => Key::Log,
            Self::R3C4 => Key::Imaginary,
            Self::R3C5 => Key::Comma,
            Self::R3C6 => Key::Pow,
            Self::R4C1 => Key::Sin,
            Self::R4C2 => Key::Cos,
            Self::R4C3 => Key::Tan,
            Self::R4C4 => Key::Pi,
            Self::R4C5 => Key::Sqrt,
            Self::R4C6 => Key::Square,
            Self::R5C1 => Key::Seven,
            Self::R5C2 => Key::Eight,
            Self::R5C3 => Key::Nine,
            Self::R5C4 => Key::LBracket,
            Self::R5C5 => Key::RBracket,
            Self::R6C1 => Key::Four,
            Self::R6C2 => Key::Five,
            Self::R6C3 => Key::Six,
            Self::R6C4 => Key::Multiply,
            Self::R6C5 => Key::Divide,
            Self::R7C1 => Key::One,
            Self::R7C2 => Key::Two,
            Self::R7C3 => Key::Three,
            Self::R7C4 => Key::Add,
            Self::R7C5 => Key::Subtract,
            Self::R8C1 => Key::Zero,
            Self::R8C2 => Key::Dot,
            Self::R8C3 => Key::EE,
            Self::R8C4 => Key::Ans,
            Self::R8C5 => Key::EXE,
            Self::NONE => Key::NONE,
        }
    }

    /// The key this switch means with shift held.
    pub fn to_key_shift(&self) -> (r: Key)
        ensures
            r == spec_to_key_shift(*self),
    {
        match self {
            Self::R2C2 => Key::AlphaLock,
            Self::R2C3 => Key::Cut,
            Self::R2C4 => Key::Copy,
            Self::R2C5 => Key::Paste,
            Self::R2C6 => Key::Clear,
            Self::R3C1 => Key::RSqBracket,
            Self::R3C2 => Key::LSqBracket,
            Self::R3C3 => Key::RCurlyBrace,
            Self::R3C4 => Key::LCurlyBrace,
            Self::R3C5 => Key::Underscore,
            Self::R3C6 => Key::Sto,
            Self::R4C1 => Key::ASin,
            Self::R4C2 => Key::ACos,
            Self::R4C3 => Key::ATan,
            Self::R4C4 => Key::Equals,
            Self::R4C5 => Key::Less,
            Self::R4C6 => Key::Greater,
            _ => self.to_key(),
        }
    }

    /// The key this switch means with alpha held, and shift as given.
    pub fn to_key_alpha(&self, shift: bool) -> (r: Key)
        ensures
            r == spec_to_key_alpha(*self, shift),
    {
        match self {
            Self::R2C3 => Key::Colon,
            Self::R2C4 => Key::SemiColon,
            Self::R2C5 => Key::Quote,
            Self::R2C6 => Key::Percent,
            Self::R3C1 => Key::A,
            Self::R3C2 => Key::B,
            Self::R3C3 => Key::C,
            Self::R3C4 => Key::D,
            Self::R3C5 => Key::E,
            Self::R3C6 => Key::F,
            Self::R4C1 => Key::G,
            Self::R4C2 => Key::H,
            Self::R4C3 => Key::I,
            Self::R4C4 => Key::J,
            Self::R4C5 => Key::K,
            Self::R4C6 => Key::L,
            Self::R5C1 => Key::M,
            Self::R5C2 => Key::N,
            Self::R5C3 => Key::O,
            Self::R5C4 => Key::P,
            Self::R5C5 => Key::Q,
            Self::R6C1 => Key::R,
            Self::R6C2 => Key::S,
            Self::R6C3 => Key::T,
            Self::R6C4 => Key::U,
            Self::R6C5 => Key::V,
            Self::R7C1 => Key::W,
            Self::R7C2 => Key::X,
            Self::R7C3 => Key::Y,
            Self::R7C4 => Key::Z,
            Self::R7C5 => Key::Space,
            Self::R8C1 => Key::Question,
            Self::R8C2 => Key::Exclamation,
            _ => {
                if shift {
                    self.to_key_shift()
                } else {
                    self.to_key()
                }
            },
        }
    }
}

/// The character a key stands for, NUL for keys that print nothing.
pub open spec fn spec_key_char(k: Key) -> char {
    match k {
        Key::XNT => 'x',
        Key::Euler => 'e',
        Key::Imaginary => 'i',
        Key::Pow => '^',
        Key::Zero => '0',
        Key::One => '1',
        Key::Two => '2',
        Key::Three => '3',
        Key::Four => '4',
        Key::Five => '5',
        Key::Six => '6',
        Key::Seven => '7',
        Key::Eight => '8',
        Key::Nine => '9',
        Key::LBracket => '(',
        Key::RBracket => ')',
        Key::RSqBracket => '[',
        Key::LSqBracket => ']',
        Key::RCurlyBrace => '{',
        Key::LCurlyBrace => '}',
        Key::Underscore => '_',
        Key::Equals => '=',
        Key::Less => '<',
        Key::Greater => '>',
        Key::Multiply => '*',
        Key::Divide => '/',
        Key::Add => '+',
        Key::Subtract => '-',
        Key::Colon => ':',
        Key::SemiColon => ';',
        Key::Dot => '.',
        Key::Comma => ',',
        Key::Quote => '\"',
        Key::Percent => '%',
        Key::A => 'a',
        Key::B => 'b',
        Key::C => 'c',
        Key::D => 'd',
        Key::E => 'e',
        Key::F => 'f',
        Key::G => 'g',
        Key::H => 'h',
        Key::I => 'i',
        Key::J => 'j',
        Key::K => 'k',
        Key::L => 'l',
        Key::M => 'm',
        Key::N => 'n',
        Key::O => 'o',
        Key::P => 'p',
        Key::Q => 'q',
        Key::R => 'r',
        Key::S => 's',
        Key::T => 't',
        Key::U => 'u',
        Key::V => 'v',
        Key::W => 'w',
        Key::X => 'x',
        Key::Y => 'y',
        Key::Z => 'z',
        Key::Space => ' ',
        Key::Question => '?',
        Key::Exclamation => '!',
        Key::EXE => '\n',
        _ => '\0',
    }
}

impl Key {
    /// The character this key stands for, NUL if it prints nothing.
    pub fn to_char(&self) -> (r: char)
        ensures
            r == spec_key_char(*self),
    {
        match self {
            Self::XNT => 'x',
            Self::Euler => 'e',
            Self::Imaginary => 'i',
            Self::Pow => '^',
            Self::Zero => '0',
            Self::One => '1',
            Self::Two => '2',
            Self::Three => '3',
            Self::Four => '4',
            Self::Five => '5',
            Self::Six => '6',
            Self::Seven => '7',
            Self::Eight => '8',
            Self::Nine => '9',
            Self::LBracket => '(',
            Self::RBracket => ')',
            Self::RSqBracket => '[',
            Self::LSqBracket => ']',
            Self::RCurlyBrace => '{',
            Self::LCurlyBrace => '}',
            Self::Underscore => '_',
            Self::Equals => '=',
            Self::Less => '<',
            Self::Greater => '>',
            Self::Multiply => '*',
            Self::Divide => '/',
            Self::Add => '+',
            Self::Subtract => '-',
            Self::Colon => ':',
            Self::SemiColon => ';',
            Self::Dot => '.',
            Self::Comma => ',',
            Self::Quote => '\"',
            Self::Percent => '%',
            Self::A => 'a',
            Self::B => 'b',
            Self::C => 'c',
            Self::D => 'd',
            Self::E => 'e',
            Self::F => 'f',
            Self::G => 'g',
            Self::H => 'h',
            Self::I => 'i',
            Self::J => 'j',
            Self::K => 'k',
            Self::L => 'l',
            Self::M => 'm',
            Self::N => 'n',
            Self::O => 'o',
            Self::P => 'p',
            Self::Q => 'q',
            Self::R => 'r',
            Self::S => 's',
            Self::T => 't',
            Self::U => 'u',
            Self::V => 'v',
            Self::W => 'w',
            Self::X => 'x',
            Self::Y => 'y',
            Self::Z => 'z',
            Self::Space => ' ',
            Self::Question => '?',
            Self::Exclamation => '!',
            Self::EXE => '\n',
            _ => '\0',
        }
    }
}


/// The column-select mask of column index `k`.
pub open spec fn spec_col_mask(k: int) -> u8 {
    if k == 0 {
        1
    } else if k == 1 {
        2
    } else if k == 2 {
        4
    } else if k == 3 {
        8
    } else if k == 4 {
        16
    } else {
        32
    }
}

fn col_mask(k: usize) -> (r: u8)
    requires
        k < 6,
    ensures
        r == spec_col_mask(k as int),
{
    match k {
        0 => 1,
        1 => 2,
        2 => 4,
        3 => 8,
        4 => 16,
        _ => 32,
    }
}

/// The switch pressed in row `start >> 4` under column mask `col`, if the
/// column bit is set in the row's scan byte and the code names a switch.
pub open spec fn spec_col_to_key(start: u8, row: u8, col: u8) -> Option<Switch> {
    let key: int = if col == 1 {
        1
    } else if col == 2 {
        2
    } else if col == 4 {
        3
    } else if col == 8 {
        4
    } else if col == 16 {
        5
    } else if col == 32 {
        6
    } else {
        0
    };
    if key == 0 {
        None
    } else if row & col == col {
        if spec_valid_code(start + key) {
            Some(spec_switch_of(start + key))
        } else {
            None
        }
    } else {
        None
    }
}

/// Decodes one (row, column) position of the scan into its switch.
pub fn col_to_key(start: u8, row: u8, col: u8) -> (r: Option<Switch>)
    requires
        start <= 0x80,
    ensures
        r == spec_col_to_key(start, row, col),
{
    let key: u8 = match col {
        1 => 1,
        2 => 2,
        4 => 3,
        8 => 4,
        16 => 5,
        32 => 6,
        _ => {
            return None;
        },
    };
    if row & col == col {
        switch_from_code(start + key)
    } else {
        None
    }
}

/// The pressed switches of row `n`, from column index `k` on.
pub open spec fn spec_row_switches(state: Seq<u8>, n: int, k: int) -> Seq<Switch>
    decreases 6 - k,
{
    if k < 0 || k >= 6 {
        Seq::empty()
    } else {
        let here = match spec_col_to_key((0x10 * n) as u8, state[n], spec_col_mask(k)) {
            Some(s) => seq![s],
            None => Seq::<Switch>::empty(),
        };
        here + spec_row_switches(state, n, k + 1)
    }
}

/// The pressed switches of the scan, from row `n` on.
pub open spec fn spec_switches_from(state: Seq<u8>, n: int) -> Seq<Switch>
    decreases 9 - n,
{
    if n < 0 || n >= 9 {
        Seq::empty()
    } else {
        spec_row_switches(state, n, 0) + spec_switches_from(state, n + 1)
    }
}

/// Every pressed switch of a scan, row by row, column by column.
pub open spec fn spec_pressed_switches(state: Seq<u8>) -> Seq<Switch> {
    spec_switches_from(state, 0)
}

/// How many valid scan codes row `n` has from column index `k` on.
pub open spec fn spec_valid_in_row(n: int, k: int) -> int
    decreases 6 - k,
{
    if k < 0 || k >= 6 {
        0
    } else {
        (if spec_valid_code(0x10 * n + k + 1) {
            1int
        } else {
            0int
        }) + spec_valid_in_row(n, k + 1)
    }
}

/// How many switches the rows from `n` on can yield at most.
pub open spec fn spec_capacity_from(n: int) -> int
    decreases 9 - n,
{
    if n < 0 || n >= 9 {
        0
    } else {
        spec_valid_in_row(n, 0) + spec_capacity_from(n + 1)
    }
}

proof fn lemma_row_switches_bound(state: Seq<u8>, n: int, k: int)
    requires
        0 <= n < 9,
    ensures
        spec_row_switches(state, n, k).len() <= spec_valid_in_row(n, k),
    decreases 6 - k,
{
    if 0 <= k < 6 {
        lemma_row_switches_bound(state, n, k + 1);
        let start = (0x10 * n) as u8;
        let c = spec_col_to_key(start, state[n], spec_col_mask(k));
        if c is Some {
            assert(spec_valid_code(0x10 * n + k + 1));
        }
    }
}

proof fn lemma_switches_from_bound(state: Seq<u8>, n: int)
    ensures
        spec_switches_from(state, n).len() <= spec_capacity_from(n),
    decreases 9 - n,
{
    if 0 <= n < 9 {
        lemma_row_switches_bound(state, n, 0);
        lemma_switches_from_bound(state, n + 1);
    }
}

/// The matrix has 46 switches, so no scan yields more than 46 pressed
/// switches.
pub proof fn lemma_pressed_switches_bound(state: Seq<u8>)
    ensures
        spec_pressed_switches(state).len() <= 46,
{
    lemma_switches_from_bound(state, 0);
    reveal_with_fuel(spec_valid_in_row, 8);
    assert(spec_valid_in_row(0, 0) == 6);
    assert(spec_valid_in_row(1, 0) == 2);
    assert(spec_valid_in_row(2, 0) == 6);
    assert(spec_valid_in_row(3, 0) == 6);
    assert(spec_valid_in_row(4, 0) == 6);
    assert(spec_valid_in_row(5, 0) == 5);
    assert(spec_valid_in_row(6, 0) == 5);
    assert(spec_valid_in_row(7, 0) == 5);
    assert(spec_valid_in_row(8, 0) == 5);
    reveal_with_fuel(spec_capacity_from, 11);
    assert(spec_capacity_from(0) == 46);
}

/// The pressed switches, filled out to the fixed table length of 46 with
/// `NONE`.
pub open spec fn spec_padded_switches(state: Seq<u8>) -> Seq<Switch> {
    let p = spec_pressed_switches(state);
    if p.len() >= 46 {
        p
    } else {
        p + Seq::new((46 - p.len()) as nat, |i: int| Switch::NONE)
    }
}

/// Decodes a whole scan: one byte per row, a set bit per pressed column,
/// into the table of pressed switches, `NONE`-padded to its fixed length.
pub fn state_to_switches(state: [u8; 9]) -> (r: Vec<Switch>)
    ensures
        r@ == spec_padded_switches(state@),
        r@.len() == 46,
{
    let ghost all = spec_pressed_switches(state@);
    let mut keys: Vec<Switch> = Vec::new();
    let mut n: usize = 0;
    proof {
        assert(keys@ + spec_switches_from(state@, 0) =~= all);
    }
    while n < 9
        invariant
            n <= 9,
            keys@ + spec_switches_from(state@, n as int) =~= all,
        decreases 9 - n,
    {
        let start: u8 = 0x10 * (n as u8);
        let row: u8 = state[n];
        let mut k: usize = 0;
        proof {
            assert(spec_switches_from(state@, n as int) == spec_row_switches(state@, n as int, 0)
                + spec_switches_from(state@, n as int + 1));
            assert(keys@ + spec_row_switches(state@, n as int, 0) + spec_switches_from(
                state@,
                n as int + 1,
            ) =~= all);
        }
        while k < 6
            invariant
                k <= 6,
                n < 9,
                start == 0x10 * n,
                row == state@[n as int],
                keys@ + spec_row_switches(state@, n as int, k as int) + spec_switches_from(
                    state@,
                    n as int + 1,
                ) =~= all,
            decreases 6 - k,
        {
            let ghost keys0 = keys@;
            let mask = col_mask(k);
            if let Some(sw) = col_to_key(start, row, mask) {
                keys.push(sw);
            }
            proof {
                let here = match spec_col_to_key(start, row, spec_col_mask(k as int)) {
                    Some(s) => seq![s],
                    None => Seq::<Switch>::empty(),
                };
                assert(spec_row_switches(state@, n as int, k as int) == here + spec_row_switches(
                    state@,
                    n as int,
                    k as int + 1,
                ));
                assert(keys@ =~= keys0 + here);
                assert(keys@ + spec_row_switches(state@, n as int, k as int + 1)
                    + spec_switches_from(state@, n as int + 1) =~= keys0 + spec_row_switches(
                    state@,
                    n as int,
                    k as int,
                ) + spec_switches_from(state@, n as int + 1));
            }
            k = k + 1;
        }
        proof {
            assert(spec_row_switches(state@, n as int, 6) =~= Seq::<Switch>::empty());
            assert(keys@ + spec_switches_from(state@, n as int + 1) =~= keys@ + spec_row_switches(
                state@,
                n as int,
                6,
            ) + spec_switches_from(state@, n as int + 1));
        }
        n = n + 1;
    }
    proof {
        assert(spec_switches_from(state@, 9) =~= Seq::<Switch>::empty());
        assert(keys@ =~= all);
        lemma_pressed_switches_bound(state@);
    }
    let ghost pressed_len = keys@.len();
    while keys.len() < 46
        invariant
            pressed_len <= keys@.len() <= 46,
            keys@.take(pressed_len as int) == all,
            pressed_len == all.len(),
            forall|j: int| pressed_len <= j < keys@.len() ==> keys@[j] == Switch::NONE,
        decreases 46 - keys@.len(),
    {
        keys.push(Switch::NONE);
    }
    proof {
        assert(keys@ =~= spec_padded_switches(state@));
    }
    keys
}

/// The key a switch yields under the given modifier regime: alpha wins
/// over shift, shift over the plain band.
pub open spec fn spec_mode_map(s: Switch, shift: bool, alpha: bool) -> Key {
    if alpha && shift {
        spec_to_key_alpha(s, true)
    } else if alpha {
        spec_to_key_alpha(s, false)
    } else if shift {
        spec_to_key_shift(s)
    } else {
        spec_to_key(s)
    }
}

/// Whether the shift switch is held in this scan.
pub open spec fn spec_shift(state: Seq<u8>) -> bool {
    spec_padded_switches(state).contains(Switch::R2C1)
}

/// Whether the alpha regime is active: the alpha switch held, or the
/// alpha lock on.
pub open spec fn spec_alpha(state: Seq<u8>, alpha_lock: bool) -> bool {
    spec_padded_switches(state).contains(Switch::R2C2) || alpha_lock
}

/// Sum of the scan bytes from row `n` on: a cheap fingerprint of the scan
/// used to detect a change of state.
pub open spec fn spec_state_sum(state: Seq<u8>, n: int) -> int
    decreases 9 - n,
{
    if n < 0 || n >= 9 {
        0
    } else {
        state[n] + spec_state_sum(state, n + 1)
    }
}

fn state_sum(state: &[u8; 9]) -> (r: u16)
    ensures
        r == spec_state_sum(state@, 0),
{
    let mut acc: u16 = 0;
    let mut i: usize = 0;
    while i < 9
        invariant
            i <= 9,
            acc <= 255 * i,
            acc + spec_state_sum(state@, i as int) == spec_state_sum(state@, 0),
        decreases 9 - i,
    {
        acc = acc + state[i] as u16;
        i = i + 1;
    }
    acc
}

fn contains_switch(v: &Vec<Switch>, target: Switch) -> (r: bool)
    ensures
        r == v@.contains(target),
{
    let mut i: usize = 0;
    while i < v.len()
        invariant
            i <= v@.len(),
            forall|j: int| 0 <= j < i ==> v@[j] != target,
        decreases v@.len() - i,
    {
        if v[i] == target {
            return true;
        }
        i = i + 1;
    }
    false
}

fn contains_key(v: &Vec<Key>, target: Key) -> (r: bool)
    ensures
        r == v@.contains(target),
{
    let mut i: usize = 0;
    while i < v.len()
        invariant
            i <= v@.len(),
            forall|j: int| 0 <= j < i ==> v@[j] != target,
        decreases v@.len() - i,
    {
        if v[i] == target {
            return true;
        }
        i = i + 1;
    }
    false
}

/// The keypad decoder: tracks the alpha lock and the fingerprint of the
/// last scan, so the lock toggles once per press.
pub struct KeyPad {
    /// Whether the alpha lock is on.
    pub alpha_lock: bool,
    /// Fingerprint of the last scan that was acted on.
    pub last_state: u16,
}

impl KeyPad {
    /// A decoder with the lock off and no scan seen yet.
    pub fn new() -> (r: KeyPad)
        ensures
            !r.alpha_lock,
            r.last_state == 0,
    {
        KeyPad { alpha_lock: false, last_state: 0 }
    }

    /// Decodes one scan into the fixed-length key table: every pressed
    /// switch mapped under the modifier regime the scan itself selects,
    /// padded with `NONE`. When the scan differs from the last one and
    /// the alpha-lock key is among the pressed keys, the alpha lock
    /// toggles.
    pub fn read(&mut self, state: [u8; 9]) -> (r: Vec<Key>)
        ensures
            r@.len() == 46,
            forall|i: int|
                0 <= i < 46 ==> r@[i] == spec_mode_map(
                    spec_padded_switches(state@)[i],
                    spec_shift(state@),
                    spec_alpha(state@, old(self).alpha_lock),
                ),
            final(self).last_state == (if spec_state_sum(state@, 0) != old(self).last_state {
                spec_state_sum(state@, 0)
            } else {
                old(self).last_state as int
            }),
            final(self).alpha_lock == (if spec_state_sum(state@, 0) != old(self).last_state
                && r@.contains(Key::AlphaLock) {
                !old(self).alpha_lock
            } else {
                old(self).alpha_lock
            }),
    {
        let switches = state_to_switches(state);
        let sum = state_sum(&state);
        let shift = contains_switch(&switches, Switch::R2C1);
        let alpha = contains_switch(&switches, Switch::R2C2) || self.alpha_lock;
        let mut keys: Vec<Key> = Vec::new();
        let mut i: usize = 0;
        while i < switches.len()
            invariant
                i <= switches@.len(),
                switches@.len() == 46,
                switches@ == spec_padded_switches(state@),
                shift == spec_shift(state@),
                alpha == spec_alpha(state@, old(self).alpha_lock),
                keys@.len() == i,
                forall|j: int|
                    0 <= j < i ==> keys@[j] == spec_mode_map(switches@[j], shift, alpha),
            decreases switches@.len() - i,
        {
            let sw = switches[i];
            let k = if alpha && shift {
                sw.to_key_alpha(true)
            } else if alpha {
                sw.to_key_alpha(false)
            } else if shift {
                sw.to_key_shift()
            } else {
                sw.to_key()
            };
            keys.push(k);
            i = i + 1;
        }
        if sum != self.last_state {
            self.last_state = sum;
            if contains_key(&keys, Key::AlphaLock) {
                self.alpha_lock = !self.alpha_lock;
            }
        }
        keys
    }
}

} // verus!
