use vstd::prelude::*;

verus! {

/// The sixteen colors of the text-mode palette.
#[derive(Debug, Clone, Copy, PartialEq, Eq, Structural)]
pub enum Color {
    Black,
    Blue,
    Green,
    Cyan,
    Red,
    Magenta,
    Brown,
    LightGray,
    DarkGray,
    LightBlue,
    LightGreen,
    LightCyan,
    LightRed,
    Pink,
    Yellow,
    White,
}

/// The hardware code of a color.
pub open spec fn color_code_of(c: Color) -> u8 {
    match c {
        Color::Black => 0,
        Color::Blue => 1,
        Color::Green => 2,
        Color::Cyan => 3,
        Color::Red => 4,
        Color::Magenta => 5,
        Color::Brown => 6,
        Color::LightGray => 7,
        Color::DarkGray => 8,
        Color::LightBlue => 9,
        Color::LightGreen => 10,
        Color::LightCyan => 11,
        Color::LightRed => 12,
        Color::Pink => 13,
        Color::Yellow => 14,
        Color::White => 15,
    }
}

impl Color {
    /// The hardware code of this color, in `0..16`.
    pub fn code(self) -> (r: u8)
        ensures
            r == color_code_of(self),
            r < 16,
    {
        match self {
            Color::Black => 0,
            Color::Blue => 1,
            Color::Green => 2,
            Color::Cyan => 3,
            Color::Red => 4,
            Color::Magenta => 5,
            Color::Brown => 6,
            Color::LightGray => 7,
            Color::DarkGray => 8,
            Color::LightBlue => 9,
            Color::LightGreen => 10,
            Color::LightCyan => 11,
            Color::LightRed => 12,
            Color::Pink => 13,
            Color::Yellow => 14,
            Color::White => 15,
        }
    }
}

/// A packed attribute byte: foreground in the low four bits, background in
/// the high four bits.
#[derive(Debug, Clone, Copy, PartialEq, Eq, Structural)]
pub struct ColorCode(pub u8);

/// The attribute byte for a foreground and background color.
pub open spec fn packed(foreground: Color, background: Color) -> u8 {
    (color_code_of(background) * 16 + color_code_of(foreground)) as u8
}

impl ColorCode {
    pub fn new(foreground: Color, background: Color) -> (r: ColorCode)
        ensures
            r.0 == packed(foreground, background),
            r.0 % 16 == color_code_of(foreground),
            r.0 / 16 == color_code_of(background),
    {
        let f = foreground.code();
        let b = background.code();
        let r = (b << 4u8) | f;
        assert(r == b * 16 + f && (b << 4u8) | f < 256) by (bit_vector)
            requires
                r == (b << 4u8) | f,
                f < 16,
                b < 16,
        ;
        ColorCode(r)
    }
}

/// White on black.
pub open spec fn default_color_code() -> ColorCode {
    ColorCode(packed(Color::White, Color::Black))
}

impl Default for ColorCode {
    fn default() -> (r: ColorCode)
        ensures
            r == default_color_code(),
    {
        ColorCode::new(Color::White, Color::Black)
    }
}

} // verus!
