//! Glyphs, colours and the cell that the character grid is made of.
use vstd::prelude::*;

verus! {

/// A glyph of the font atlas, numbered in the order of the atlas.
#[derive(Clone, Copy, Debug, PartialEq, Eq, Structural, Hash, PartialOrd, Ord)]
pub enum Character {
    AT,
    A,
    B,
    C,
    D,
    E,
    F,
    G,
    H,
    I,
    J,
    K,
    L,
    M,
    N,
    O,
    P,
    Q,
    R,
    S,
    T,
    U,
    V,
    W,
    X,
    Y,
    Z,
    LeftBracket,
    Euro,
    RightBracket,
    ArrowUp,
    ArrowLeft,
    Space,
    ExcalamationMark,
    DoubleQuotes,
    Hashtag,
    Dollar,
    Percent,
    Ampersand,
    Apostrophe,
    LeftParenthesis,
    RightParenthesis,
    Asterisk,
    Plus,
    Comma,
    Hyphen,
    Period,
    ForwardSlash,
    Zero,
    One,
    Two,
    Three,
    Four,
    Five,
    Six,
    Seven,
    Eight,
    Nine,
    Colon,
    SemiColon,
    LessThan,
    Equal,
    GreaterThan,
    QuestionMark,
    DashedHorizontalCenter,
    Spade,
    BorderVerticalCenter,
    BorderHorizontalCenter,
    BorderHorizontalN2,
    BorderHorizontalN4,
    BorderHorizontalS2,
    BorderVerticalW2,
    BorderVerticalE2,
    RoundedCornerCenterNE,
    RoundedCornerCenterSW,
    RoundedCornerCenterSE,
    LBorderSW,
    DiagonalEB,
    DiagonalWB,
    LBorderNW,
    LBorderNE,
    Circle,
    BorderHorizontalS4,
    Heart,
    BorderVerticalW4,
    RoundedCornerNW,
    DiagonalCross,
    Doughnut,
    Sign,
    BorderVerticalE4,
    Ball,
    Cross,
    DitherW,
    DashedVerticalCenter,
    Pi,
    StairNE,
    Nil,
    HalfW,
    HalfS,
    ThinBorderN,
    ThinBorderS,
    BorderW,
    Dither,
    BorderE,
    DitherS,
    StairsNW,
    DashedE,
    TBorderNSE,
    QuadSE,
    CornerNE,
    CornerWS,
    BorderS,
    CornerNW,
    TBorderNWE,
    TBorderSWE,
    TBorderNSW,
    DashedW,
    ThickBorderW,
    ThickBorderE,
    BorderN,
    ThickBorderN,
    ThickBorderS,
    LBorderSE,
    QuadSW,
    QuadNE,
    CornerSE,
    QuadNW,
    QuadCorners,
}

/// One of the sixteen colours of the palette, numbered in palette order.
#[derive(Clone, Copy, Debug, PartialEq, Eq, Structural, Hash, PartialOrd, Ord)]
pub enum Color {
    Black,
    White,
    Red,
    Cyan,
    Violet,
    Green,
    Blue,
    Yellow,
    Orange,
    Brown,
    LightRed,
    DarkGrey,
    Grey,
    LightGreen,
    LightBlue,
    LightGrey,
}

/// The number of the atlas glyph that stands for `c`: the atlas follows the
/// PETSCII screen-code layout, so `'@'..='Z'` and `'a'..='z'` fold onto
/// `0..=26`, `' '..='?'` keep their ASCII code, a few symbols have fixed
/// slots, and every other character is the blank glyph [`Character::Nil`].
pub open spec fn glyph_code(c: char) -> u8 {
    if '@' <= c && c <= 'Z' {
        (c as u32 - 64) as u8
    } else if 'a' <= c && c <= 'z' {
        (c as u32 - 96) as u8
    } else if ' ' <= c && c <= '?' {
        c as u8
    } else if c == '[' {
        27
    } else if c == '\u{20AC}' {
        28
    } else if c == ']' {
        29
    } else if c == '\u{2191}' {
        30
    } else if c == '\u{2190}' {
        31
    } else {
        96
    }
}

impl Character {
    /// The glyph's slot in the font atlas.
    pub open spec fn code(self) -> u8 {
        match self {
            Character::AT => 0,
            Character::A => 1,
            Character::B => 2,
            Character::C => 3,
            Character::D => 4,
            Character::E => 5,
            Character::F => 6,
            Character::G => 7,
            Character::H => 8,
            Character::I => 9,
            Character::J => 10,
            Character::K => 11,
            Character::L => 12,
            Character::M => 13,
            Character::N => 14,
            Character::O => 15,
            Character::P => 16,
            Character::Q => 17,
            Character::R => 18,
            Character::S => 19,
            Character::T => 20,
            Character::U => 21,
            Character::V => 22,
            Character::W => 23,
            Character::X => 24,
            Character::Y => 25,
            Character::Z => 26,
            Character::LeftBracket => 27,
            Character::Euro => 28,
            Character::RightBracket => 29,
            Character::ArrowUp => 30,
            Character::ArrowLeft => 31,
            Character::Space => 32,
            Character::ExcalamationMark => 33,
            Character::DoubleQuotes => 34,
            Character::Hashtag => 35,
            Character::Dollar => 36,
            Character::Percent => 37,
            Character::Ampersand => 38,
            Character::Apostrophe => 39,
            Character::LeftParenthesis => 40,
            Character::RightParenthesis => 41,
            Character::Asterisk => 42,
            Character::Plus => 43,
            Character::Comma => 44,
            Character::Hyphen => 45,
            Character::Period => 46,
            Character::ForwardSlash => 47,
            Character::Zero => 48,
            Character::One => 49,
            Character::Two => 50,
            Character::Three => 51,
            Character::Four => 52,
            Character::Five => 53,
            Character::Six => 54,
            Character::Seven => 55,
            Character::Eight => 56,
            Character::Nine => 57,
            Character::Colon => 58,
            Character::SemiColon => 59,
            Character::LessThan => 60,
            Character::Equal => 61,
            Character::GreaterThan => 62,
            Character::QuestionMark => 63,
            Character::DashedHorizontalCenter => 64,
            Character::Spade => 65,
            Character::BorderVerticalCenter => 66,
            Character::BorderHorizontalCenter => 67,
            Character::BorderHorizontalN2 => 68,
            Character::BorderHorizontalN4 => 69,
            Character::BorderHorizontalS2 => 70,
            Character::BorderVerticalW2 => 71,
            Character::BorderVerticalE2 => 72,
            Character::RoundedCornerCenterNE => 73,
            Character::RoundedCornerCenterSW => 74,
            Character::RoundedCornerCenterSE => 75,
            Character::LBorderSW => 76,
            Character::DiagonalEB => 77,
            Character::DiagonalWB => 78,
            Character::LBorderNW => 79,
            Character::LBorderNE => 80,
            Character::Circle => 81,
            Character::BorderHorizontalS4 => 82,
            Character::Heart => 83,
            Character::BorderVerticalW4 => 84,
            Character::RoundedCornerNW => 85,
            Character::DiagonalCross => 86,
            Character::Doughnut => 87,
            Character::Sign => 88,
            Character::BorderVerticalE4 => 89,
            Character::Ball => 90,
            Character::Cross => 91,
            Character::DitherW => 92,
            Character::DashedVerticalCenter => 93,
            Character::Pi => 94,
            Character::StairNE => 95,
            Character::Nil => 96,
            Character::HalfW => 97,
            Character::HalfS => 98,
            Character::ThinBorderN => 99,
            Character::ThinBorderS => 100,
            Character::BorderW => 101,
            Character::Dither => 102,
            Character::BorderE => 103,
            Character::DitherS => 104,
            Character::StairsNW => 105,
            Character::DashedE => 106,
            Character::TBorderNSE => 107,
            Character::QuadSE => 108,
            Character::CornerNE => 109,
            Character::CornerWS => 110,
            Character::BorderS => 111,
            Character::CornerNW => 112,
            Character::TBorderNWE => 113,
            Character::TBorderSWE => 114,
            Character::TBorderNSW => 115,
            Character::DashedW => 116,
            Character::ThickBorderW => 117,
            Character::ThickBorderE => 118,
            Character::BorderN => 119,
            Character::ThickBorderN => 120,
            Character::ThickBorderS => 121,
            Character::LBorderSE => 122,
            Character::QuadSW => 123,
            Character::QuadNE => 124,
            Character::CornerSE => 125,
            Character::QuadNW => 126,
            Character::QuadCorners => 127,
        }
    }

    /// The glyph in slot `i` of the atlas; slots past the last glyph are blank.
    pub open spec fn from_code(i: u8) -> Character {
        if i == 0 {
            Character::AT
        } else if i == 1 {
            Character::A
        } else if i == 2 {
            Character::B
        } else if i == 3 {
            Character::C
        } else if i == 4 {
            Character::D
        } else if i == 5 {
            Character::E
        } else if i == 6 {
            Character::F
        } else if i == 7 {
            Character::G
        } else if i == 8 {
            Character::H
        } else if i == 9 {
            Character::I
        } else if i == 10 {
            Character::J
        } else if i == 11 {
            Character::K
        } else if i == 12 {
            Character::L
        } else if i == 13 {
            Character::M
        } else if i == 14 {
            Character::N
        } else if i == 15 {
            Character::O
        } else if i == 16 {
            Character::P
        } else if i == 17 {
            Character::Q
        } else if i == 18 {
            Character::R
        } else if i == 19 {
            Character::S
        } else if i == 20 {
            Character::T
        } else if i == 21 {
            Character::U
        } else if i == 22 {
            Character::V
        } else if i == 23 {
            Character::W
        } else if i == 24 {
            Character::X
        } else if i == 25 {
            Character::Y
        } else if i == 26 {
            Character::Z
        } else if i == 27 {
            Character::LeftBracket
        } else if i == 28 {
            Character::Euro
        } else if i == 29 {
            Character::RightBracket
        } else if i == 30 {
            Character::ArrowUp
        } else if i == 31 {
            Character::ArrowLeft
        } else if i == 32 {
            Character::Space
        } else if i == 33 {
            Character::ExcalamationMark
        } else if i == 34 {
            Character::DoubleQuotes
        } else if i == 35 {
            Character::Hashtag
        } else if i == 36 {
            Character::Dollar
        } else if i == 37 {
            Character::Percent
        } else if i == 38 {
            Character::Ampersand
        } else if i == 39 {
            Character::Apostrophe
        } else if i == 40 {
            Character::LeftParenthesis
        } else if i == 41 {
            Character::RightParenthesis
        } else if i == 42 {
            Character::Asterisk
        } else if i == 43 {
            Character::Plus
        } else if i == 44 {
            Character::Comma
        } else if i == 45 {
            Character::Hyphen
        } else if i == 46 {
            Character::Period
        } else if i == 47 {
            Character::ForwardSlash
        } else if i == 48 {
            Character::Zero
        } else if i == 49 {
            Character::One
        } else if i == 50 {
            Character::Two
        } else if i == 51 {
            Character::Three
        } else if i == 52 {
            Character::Four
        } else if i == 53 {
            Character::Five
        } else if i == 54 {
            Character::Six
        } else if i == 55 {
            Character::Seven
        } else if i == 56 {
            Character::Eight
        } else if i == 57 {
            Character::Nine
        } else if i == 58 {
            Character::Colon
        } else if i == 59 {
            Character::SemiColon
        } else if i == 60 {
            Character::LessThan
        } else if i == 61 {
            Character::Equal
        } else if i == 62 {
            Character::GreaterThan
        } else if i == 63 {
            Character::QuestionMark
        } else if i == 64 {
            Character::DashedHorizontalCenter
        } else if i == 65 {
            Character::Spade
        } else if i == 66 {
            Character::BorderVerticalCenter
        } else if i == 67 {
            Character::BorderHorizontalCenter
        } else if i == 68 {
            Character::BorderHorizontalN2
        } else if i == 69 {
            Character::BorderHorizontalN4
        } else if i == 70 {
            Character::BorderHorizontalS2
        } else if i == 71 {
            Character::BorderVerticalW2
        } else if i == 72 {
            Character::BorderVerticalE2
        } else if i == 73 {
            Character::RoundedCornerCenterNE
        } else if i == 74 {
            Character::RoundedCornerCenterSW
        } else if i == 75 {
            Character::RoundedCornerCenterSE
        } else if i == 76 {
            Character::LBorderSW
        } else if i == 77 {
            Character::DiagonalEB
        } else if i == 78 {
            Character::DiagonalWB
        } else if i == 79 {
            Character::LBorderNW
        } else if i == 80 {
            Character::LBorderNE
        } else if i == 81 {
            Character::Circle
        } else if i == 82 {
            Character::BorderHorizontalS4
        } else if i == 83 {
            Character::Heart
        } else if i == 84 {
            Character::BorderVerticalW4
        } else if i == 85 {
            Character::RoundedCornerNW
        } else if i == 86 {
            Character::DiagonalCross
        } else if i == 87 {
            Character::Doughnut
        } else if i == 88 {
            Character::Sign
        } else if i == 89 {
            Character::BorderVerticalE4
        } else if i == 90 {
            Character::Ball
        } else if i == 91 {
            Character::Cross
        } else if i == 92 {
            Character::DitherW
        } else if i == 93 {
            Character::DashedVerticalCenter
        } else if i == 94 {
            Character::Pi
        } else if i == 95 {
            Character::StairNE
        } else if i == 96 {
            Character::Nil
        } else if i == 97 {
            Character::HalfW
        } else if i == 98 {
            Character::HalfS
        } else if i == 99 {
            Character::ThinBorderN
        } else if i == 100 {
            Character::ThinBorderS
        } else if i == 101 {
            Character::BorderW
        } else if i == 102 {
            Character::Dither
        } else if i == 103 {
            Character::BorderE
        } else if i == 104 {
            Character::DitherS
        } else if i == 105 {
            Character::StairsNW
        } else if i == 106 {
            Character::DashedE
        } else if i == 107 {
            Character::TBorderNSE
        } else if i == 108 {
            Character::QuadSE
        } else if i == 109 {
            Character::CornerNE
        } else if i == 110 {
            Character::CornerWS
        } else if i == 111 {
            Character::BorderS
        } else if i == 112 {
            Character::CornerNW
        } else if i == 113 {
            Character::TBorderNWE
        } else if i == 114 {
            Character::TBorderSWE
        } else if i == 115 {
            Character::TBorderNSW
        } else if i == 116 {
            Character::DashedW
        } else if i == 117 {
            Character::ThickBorderW
        } else if i == 118 {
            Character::ThickBorderE
        } else if i == 119 {
            Character::BorderN
        } else if i == 120 {
            Character::ThickBorderN
        } else if i == 121 {
            Character::ThickBorderS
        } else if i == 122 {
            Character::LBorderSE
        } else if i == 123 {
            Character::QuadSW
        } else if i == 124 {
            Character::QuadNE
        } else if i == 125 {
            Character::CornerSE
        } else if i == 126 {
            Character::QuadNW
        } else if i == 127 {
            Character::QuadCorners
        } else {
            Character::Nil
        }
    }

    /// The glyph's slot in the font atlas.
    pub fn index(&self) -> (r: u8)
        ensures
            r == self.code(),
            r < 128,
    {
        match self {
            Character::AT => 0,
            Character::A => 1,
            Character::B => 2,
            Character::C => 3,
            Character::D => 4,
            Character::E => 5,
            Character::F => 6,
            Character::G => 7,
            Character::H => 8,
            Character::I => 9,
            Character::J => 10,
            Character::K => 11,
            Character::L => 12,
            Character::M => 13,
            Character::N => 14,
            Character::O => 15,
            Character::P => 16,
            Character::Q => 17,
            Character::R => 18,
            Character::S => 19,
            Character::T => 20,
            Character::U => 21,
            Character::V => 22,
            Character::W => 23,
            Character::X => 24,
            Character::Y => 25,
            Character::Z => 26,
            Character::LeftBracket => 27,
            Character::Euro => 28,
            Character::RightBracket => 29,
            Character::ArrowUp => 30,
            Character::ArrowLeft => 31,
            Character::Space => 32,
            Character::ExcalamationMark => 33,
            Character::DoubleQuotes => 34,
            Character::Hashtag => 35,
            Character::Dollar => 36,
            Character::Percent => 37,
            Character::Ampersand => 38,
            Character::Apostrophe => 39,
            Character::LeftParenthesis => 40,
            Character::RightParenthesis => 41,
            Character::Asterisk => 42,
            Character::Plus => 43,
            Character::Comma => 44,
            Character::Hyphen => 45,
            Character::Period => 46,
            Character::ForwardSlash => 47,
            Character::Zero => 48,
            Character::One => 49,
            Character::Two => 50,
            Character::Three => 51,
            Character::Four => 52,
            Character::Five => 53,
            Character::Six => 54,
            Character::Seven => 55,
            Character::Eight => 56,
            Character::Nine => 57,
            Character::Colon => 58,
            Character::SemiColon => 59,
            Character::LessThan => 60,
            Character::Equal => 61,
            Character::GreaterThan => 62,
            Character::QuestionMark => 63,
            Character::DashedHorizontalCenter => 64,
            Character::Spade => 65,
            Character::BorderVerticalCenter => 66,
            Character::BorderHorizontalCenter => 67,
            Character::BorderHorizontalN2 => 68,
            Character::BorderHorizontalN4 => 69,
            Character::BorderHorizontalS2 => 70,
            Character::BorderVerticalW2 => 71,
            Character::BorderVerticalE2 => 72,
            Character::RoundedCornerCenterNE => 73,
            Character::RoundedCornerCenterSW => 74,
            Character::RoundedCornerCenterSE => 75,
            Character::LBorderSW => 76,
            Character::DiagonalEB => 77,
            Character::DiagonalWB => 78,
            Character::LBorderNW => 79,
            Character::LBorderNE => 80,
            Character::Circle => 81,
            Character::BorderHorizontalS4 => 82,
            Character::Heart => 83,
            Character::BorderVerticalW4 => 84,
            Character::RoundedCornerNW => 85,
            Character::DiagonalCross => 86,
            Character::Doughnut => 87,
            Character::Sign => 88,
            Character::BorderVerticalE4 => 89,
            Character::Ball => 90,
            Character::Cross => 91,
            Character::DitherW => 92,
            Character::DashedVerticalCenter => 93,
            Character::Pi => 94,
            Character::StairNE => 95,
            Character::Nil => 96,
            Character::HalfW => 97,
            Character::HalfS => 98,
            Character::ThinBorderN => 99,
            Character::ThinBorderS => 100,
            Character::BorderW => 101,
            Character::Dither => 102,
            Character::BorderE => 103,
            Character::DitherS => 104,
            Character::StairsNW => 105,
            Character::DashedE => 106,
            Character::TBorderNSE => 107,
            Character::QuadSE => 108,
            Character::CornerNE => 109,
            Character::CornerWS => 110,
            Character::BorderS => 111,
            Character::CornerNW => 112,
            Character::TBorderNWE => 113,
            Character::TBorderSWE => 114,
            Character::TBorderNSW => 115,
            Character::DashedW => 116,
            Character::ThickBorderW => 117,
            Character::ThickBorderE => 118,
            Character::BorderN => 119,
            Character::ThickBorderN => 120,
            Character::ThickBorderS => 121,
            Character::LBorderSE => 122,
            Character::QuadSW => 123,
            Character::QuadNE => 124,
            Character::CornerSE => 125,
            Character::QuadNW => 126,
            Character::QuadCorners => 127,
        }
    }

    /// The glyph that draws `c`; characters the atlas lacks become [`Character::Nil`].
    pub fn from_char(c: char) -> (r: Character)
        ensures
            r == Character::from_code(glyph_code(c)),
    {
        match c {
            '@' => Character::AT,
            'a' | 'A' => Character::A,
            'b' | 'B' => Character::B,
            'c' | 'C' => Character::C,
            'd' | 'D' => Character::D,
            'e' | 'E' => Character::E,
            'f' | 'F' => Character::F,
            'g' | 'G' => Character::G,
            'h' | 'H' => Character::H,
            'i' | 'I' => Character::I,
            'j' | 'J' => Character::J,
            'k' | 'K' => Character::K,
            'l' | 'L' => Character::L,
            'm' | 'M' => Character::M,
            'n' | 'N' => Character::N,
            'o' | 'O' => Character::O,
            'p' | 'P' => Character::P,
            'q' | 'Q' => Character::Q,
            'r' | 'R' => Character::R,
            's' | 'S' => Character::S,
            't' | 'T' => Character::T,
            'u' | 'U' => Character::U,
            'v' | 'V' => Character::V,
            'w' | 'W' => Character::W,
            'x' | 'X' => Character::X,
            'y' | 'Y' => Character::Y,
            'z' | 'Z' => Character::Z,
            '[' => Character::LeftBracket,
            '\u{20AC}' => Character::Euro,
            ']' => Character::RightBracket,
            '\u{2191}' => Character::ArrowUp,
            '\u{2190}' => Character::ArrowLeft,
            ' ' => Character::Space,
            '!' => Character::ExcalamationMark,
            '"' => Character::DoubleQuotes,
            '#' => Character::Hashtag,
            '$' => Character::Dollar,
            '%' => Character::Percent,
            '&' => Character::Ampersand,
            '\'' => Character::Apostrophe,
            '(' => Character::LeftParenthesis,
            ')' => Character::RightParenthesis,
            '*' => Character::Asterisk,
            '+' => Character::Plus,
            ',' => Character::Comma,
            '-' => Character::Hyphen,
            '.' => Character::Period,
            '/' => Character::ForwardSlash,
            '0' => Character::Zero,
            '1' => Character::One,
            '2' => Character::Two,
            '3' => Character::Three,
            '4' => Character::Four,
            '5' => Character::Five,
            '6' => Character::Six,
            '7' => Character::Seven,
            '8' => Character::Eight,
            '9' => Character::Nine,
            ':' => Character::Colon,
            ';' => Character::SemiColon,
            '<' => Character::LessThan,
            '=' => Character::Equal,
            '>' => Character::GreaterThan,
            '?' => Character::QuestionMark,
            _ => Character::Nil,
        }
    }
}

impl Color {
    /// The colour's slot in the palette.
    pub open spec fn code(self) -> u8 {
        match self {
            Color::Black => 0,
            Color::White => 1,
            Color::Red => 2,
            Color::Cyan => 3,
            Color::Violet => 4,
            Color::Green => 5,
            Color::Blue => 6,
            Color::Yellow => 7,
            Color::Orange => 8,
            Color::Brown => 9,
            Color::LightRed => 10,
            Color::DarkGrey => 11,
            Color::Grey => 12,
            Color::LightGreen => 13,
            Color::LightBlue => 14,
            Color::LightGrey => 15,
        }
    }

    /// The colour's slot in the palette.
    pub fn index(&self) -> (r: u8)
        ensures
            r == self.code(),
            r < 16,
    {
        match self {
            Color::Black => 0,
            Color::White => 1,
            Color::Red => 2,
            Color::Cyan => 3,
            Color::Violet => 4,
            Color::Green => 5,
            Color::Blue => 6,
            Color::Yellow => 7,
            Color::Orange => 8,
            Color::Brown => 9,
            Color::LightRed => 10,
            Color::DarkGrey => 11,
            Color::Grey => 12,
            Color::LightGreen => 13,
            Color::LightBlue => 14,
            Color::LightGrey => 15,
        }
    }
}

/// One cell of the grid: a glyph with its colours and the layer it was drawn
/// at, or nothing.
#[derive(Clone, Copy, Debug, PartialEq, Eq, Structural)]
pub enum AsciiCharacter {
    Glyph { index: Character, text_color: Color, background_color: Color, layer: u32 },
    Unset,
}

impl Default for AsciiCharacter {
    fn default() -> (r: Self)
        ensures
            r == AsciiCharacter::Unset,
    {
        AsciiCharacter::Unset
    }
}

impl AsciiCharacter {
    pub fn new(character: Character, text_color: Color, bg_color: Color) -> (r: AsciiCharacter)
        ensures
            r == (AsciiCharacter::Glyph {
                index: character,
                text_color,
                background_color: bg_color,
                layer: 0,
            }),
    {
        AsciiCharacter::Glyph { index: character, text_color, background_color: bg_color, layer: 0 }
    }

    /// The cell that shows the character `c` in the given colours.
    pub fn from_char(c: char, text_color: Color, bg_color: Color) -> (r: AsciiCharacter)
        ensures
            r == (AsciiCharacter::Glyph {
                index: Character::from_code(glyph_code(c)),
                text_color,
                background_color: bg_color,
                layer: 0,
            }),
    {
        AsciiCharacter::new(Character::from_char(c), text_color, bg_color)
    }

    /// The same cell moved to `layer`; an empty cell stays empty.
    pub open spec fn layered(self, layer: u32) -> AsciiCharacter {
        match self {
            AsciiCharacter::Glyph { index, text_color, background_color, .. } => {
                AsciiCharacter::Glyph { index, text_color, background_color, layer }
            },
            AsciiCharacter::Unset => AsciiCharacter::Unset,
        }
    }

    pub fn with_layer(self, layer: u32) -> (r: AsciiCharacter)
        ensures
            r == self.layered(layer),
    {
        match self {
            AsciiCharacter::Glyph { index, text_color, background_color, .. } => {
                AsciiCharacter::Glyph { index, text_color, background_color, layer }
            },
            AsciiCharacter::Unset => AsciiCharacter::Unset,
        }
    }

    /// Drawing `self` over `under` replaces it: a glyph covers an empty cell and a
    /// glyph on the same or a lower layer; nothing covers nothing.
    pub open spec fn covers(self, under: AsciiCharacter) -> bool {
        match (self, under) {
            (AsciiCharacter::Glyph { layer: a, .. }, AsciiCharacter::Glyph { layer: b, .. }) => a >= b,
            (AsciiCharacter::Glyph { .. }, AsciiCharacter::Unset) => true,
            _ => false,
        }
    }

    /// The cell that shows once `self` is drawn over `under`.
    pub open spec fn over(self, under: AsciiCharacter) -> AsciiCharacter {
        if self.covers(under) {
            self
        } else {
            under
        }
    }

    pub fn covers_cell(&self, under: &AsciiCharacter) -> (r: bool)
        ensures
            r == self.covers(*under),
    {
        match (self, under) {
            (AsciiCharacter::Glyph { layer: a, .. }, AsciiCharacter::Glyph { layer: b, .. }) => *a >= *b,
            (AsciiCharacter::Glyph { .. }, AsciiCharacter::Unset) => true,
            _ => false,
        }
    }

    /// The four bytes the cell is uploaded as: glyph, text colour, background
    /// colour and a set flag; an empty cell is four zeros.
    pub open spec fn bytes(self) -> Seq<u8> {
        match self {
            AsciiCharacter::Glyph { index, text_color, background_color, .. } => {
                seq![index.code(), text_color.code(), background_color.code(), 1u8]
            },
            AsciiCharacter::Unset => seq![0u8, 0u8, 0u8, 0u8],
        }
    }

    pub fn into_u8(&self) -> (r: [u8; 4])
        ensures
            r@ == self.bytes(),
    {
        let r = match self {
            AsciiCharacter::Glyph { index, text_color, background_color, .. } => {
                [index.index(), text_color.index(), background_color.index(), 1]
            },
            AsciiCharacter::Unset => [0, 0, 0, 0],
        };
        assert(r@ =~= self.bytes());
        r
    }
}

} // verus!
