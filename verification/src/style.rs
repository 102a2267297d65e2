//! Colors and rendering attributes, and the word that carries both to the
//! engine.
//!
//! The engine takes the foreground of a cell as one 16-bit word. Its low
//! byte holds the color's palette index and the byte above it holds the
//! attribute flags, so the two never share a bit.

use vstd::prelude::*;

verus! {

/// Flag bit of the bold attribute.
pub const BOLD: u8 = 0x10;

/// Flag bit of the underline attribute.
pub const UNDERLINE: u8 = 0x20;

/// Flag bit of the reverse-video attribute.
pub const REVERSE: u8 = 0x40;

/// An entry of the terminal's indexed palette. `Default` leaves the choice
/// of color to the terminal.
#[derive(PartialEq, Eq, Structural, Clone, Copy, Debug)]
pub enum Color {
    Black,
    Red,
    Green,
    Yellow,
    Blue,
    Magenta,
    Cyan,
    White,
    Default,
}

impl Color {
    /// The palette index of the color.
    pub open spec fn spec_code(self) -> u16 {
        match self {
            Color::Black => 0,
            Color::Red => 1,
            Color::Green => 2,
            Color::Yellow => 3,
            Color::Blue => 4,
            Color::Magenta => 5,
            Color::Cyan => 6,
            Color::White => 7,
            Color::Default => 15,
        }
    }

    /// The color with the palette index `code`, if there is one.
    pub open spec fn spec_from_code(code: u16) -> Option<Color> {
        if code == 0 {
            Some(Color::Black)
        } else if code == 1 {
            Some(Color::Red)
        } else if code == 2 {
            Some(Color::Green)
        } else if code == 3 {
            Some(Color::Yellow)
        } else if code == 4 {
            Some(Color::Blue)
        } else if code == 5 {
            Some(Color::Magenta)
        } else if code == 6 {
            Some(Color::Cyan)
        } else if code == 7 {
            Some(Color::White)
        } else if code == 15 {
            Some(Color::Default)
        } else {
            None
        }
    }

    /// The palette index of the color, which is also the word that the
    /// engine takes for a background.
    #[verifier::when_used_as_spec(spec_code)]
    pub fn code(self) -> (r: u16)
        ensures
            r == self.spec_code(),
            r <= 15,
    {
        match self {
            Color::Black => 0,
            Color::Red => 1,
            Color::Green => 2,
            Color::Yellow => 3,
            Color::Blue => 4,
            Color::Magenta => 5,
            Color::Cyan => 6,
            Color::White => 7,
            Color::Default => 15,
        }
    }

    /// The color with the palette index `code`; `None` where the palette
    /// has no such entry.
    pub fn from_code(code: u16) -> (r: Option<Color>)
        ensures
            r == Color::spec_from_code(code),
            r matches Some(c) ==> c.spec_code() == code,
            r is None ==> forall|c: Color| c.spec_code() != code,
    {
        match code {
            0 => Some(Color::Black),
            1 => Some(Color::Red),
            2 => Some(Color::Green),
            3 => Some(Color::Yellow),
            4 => Some(Color::Blue),
            5 => Some(Color::Magenta),
            6 => Some(Color::Cyan),
            7 => Some(Color::White),
            15 => Some(Color::Default),
            _ => None,
        }
    }
}

/// A set of rendering attributes. Each attribute is independent of the
/// others, so every combination is a face.
#[derive(PartialEq, Eq, Structural, Clone, Copy, Debug)]
pub struct Face {
    pub bold: bool,
    pub underline: bool,
    pub reverse: bool,
}

impl Face {
    /// The flag bits of the face: the sum of the bits of the attributes
    /// that are set.
    pub open spec fn spec_bits(self) -> u8 {
        ((if self.bold { BOLD as int } else { 0 })
            + (if self.underline { UNDERLINE as int } else { 0 })
            + (if self.reverse { REVERSE as int } else { 0 })) as u8
    }

    /// Whether `bits` holds flag bits only.
    pub open spec fn valid_bits(bits: u8) -> bool {
        bits % 16 == 0 && bits < 128
    }

    /// The face with the flag bits `bits`, if `bits` holds nothing else.
    pub open spec fn spec_from_bits(bits: u8) -> Option<Face> {
        if Face::valid_bits(bits) {
            Some(
                Face {
                    bold: (bits / 16) % 2 == 1,
                    underline: (bits / 32) % 2 == 1,
                    reverse: (bits / 64) % 2 == 1,
                },
            )
        } else {
            None
        }
    }

    /// The face with no attribute.
    pub fn empty() -> (r: Face)
        ensures
            r == (Face { bold: false, underline: false, reverse: false }),
    {
        Face { bold: false, underline: false, reverse: false }
    }

    /// The face with the bold attribute alone.
    pub fn bold() -> (r: Face)
        ensures
            r == (Face { bold: true, underline: false, reverse: false }),
    {
        Face { bold: true, underline: false, reverse: false }
    }

    /// The face with the underline attribute alone.
    pub fn underline() -> (r: Face)
        ensures
            r == (Face { bold: false, underline: true, reverse: false }),
    {
        Face { bold: false, underline: true, reverse: false }
    }

    /// The face with the reverse-video attribute alone.
    pub fn reverse() -> (r: Face)
        ensures
            r == (Face { bold: false, underline: false, reverse: true }),
    {
        Face { bold: false, underline: false, reverse: true }
    }

    /// The face with the attributes of both faces.
    pub fn union(self, other: Face) -> (r: Face)
        ensures
            r.bold == (self.bold || other.bold),
            r.underline == (self.underline || other.underline),
            r.reverse == (self.reverse || other.reverse),
    {
        Face {
            bold: self.bold || other.bold,
            underline: self.underline || other.underline,
            reverse: self.reverse || other.reverse,
        }
    }

    /// Whether the face has every attribute of `other`.
    pub fn contains(self, other: Face) -> (r: bool)
        ensures
            r == ((other.bold ==> self.bold) && (other.underline ==> self.underline) && (
            other.reverse ==> self.reverse)),
    {
        (!other.bold || self.bold) && (!other.underline || self.underline) && (!other.reverse
            || self.reverse)
    }

    /// The flag bits of the face.
    #[verifier::when_used_as_spec(spec_bits)]
    pub fn bits(self) -> (r: u8)
        ensures
            r == self.spec_bits(),
            Face::valid_bits(r),
    {
        let mut r: u8 = 0;
        if self.bold {
            r = r + BOLD;
        }
        if self.underline {
            r = r + UNDERLINE;
        }
        if self.reverse {
            r = r + REVERSE;
        }
        r
    }

    /// The face with the flag bits `bits`; `None` where `bits` holds a bit
    /// that is no flag.
    pub fn from_bits(bits: u8) -> (r: Option<Face>)
        ensures
            r == Face::spec_from_bits(bits),
            r is Some <==> Face::valid_bits(bits),
            r matches Some(f) ==> f.spec_bits() == bits,
            r is None ==> forall|f: Face| f.spec_bits() != bits,
    {
        let stray: u8 = bits & 0x8F;
        let bold: bool = bits & BOLD != 0;
        let underline: bool = bits & UNDERLINE != 0;
        let reverse: bool = bits & REVERSE != 0;
        assert((bits & 0x8F == 0) <==> (bits % 16 == 0 && bits < 128)) by (bit_vector);
        assert((bits & 0x10 != 0) <==> ((bits / 16) % 2 == 1)) by (bit_vector);
        assert((bits & 0x20 != 0) <==> ((bits / 32) % 2 == 1)) by (bit_vector);
        assert((bits & 0x40 != 0) <==> ((bits / 64) % 2 == 1)) by (bit_vector);
        if stray == 0 {
            Some(Face { bold, underline, reverse })
        } else {
            None
        }
    }
}

/// The foreground word of a color drawn with a face: the palette index in
/// the low byte, the flag bits in the byte above.
pub open spec fn fg_word(fg: Color, face: Face) -> u16 {
    (fg.spec_code() + 256 * face.spec_bits()) as u16
}

/// The color and the face that a foreground word holds, if its low byte is
/// a palette index and the byte above holds flag bits only.
pub open spec fn fg_parts(word: u16) -> Option<(Color, Face)> {
    match (Color::spec_from_code(word % 256), Face::spec_from_bits((word / 256) as u8)) {
        (Some(fg), Some(face)) => Some((fg, face)),
        _ => None,
    }
}

/// Packs a color and a face into the foreground word of a cell.
pub fn pack_fg(fg: Color, face: Face) -> (word: u16)
    ensures
        word == fg_word(fg, face),
        word % 256 == fg.spec_code(),
        word / 256 == face.spec_bits(),
{
    let low: u16 = fg.code();
    let high: u16 = face.bits() as u16;
    assert(low | (high << 8) == low + 256 * high) by (bit_vector)
        requires
            low < 256,
            high < 256,
    ;
    low | (high << 8)
}

/// Takes a foreground word apart again. `None` means that no color and
/// face pack into `word`.
pub fn unpack_fg(word: u16) -> (r: Option<(Color, Face)>)
    ensures
        r == fg_parts(word),
        r matches Some((fg, face)) ==> fg_word(fg, face) == word,
        r is None ==> forall|fg: Color, face: Face| fg_word(fg, face) != word,
{
    let low: u16 = word & 0xFF;
    let high: u8 = (word >> 8) as u8;
    assert(word & 0xFF == word % 256) by (bit_vector);
    assert((word >> 8) == word / 256) by (bit_vector);
    match (Color::from_code(low), Face::from_bits(high)) {
        (Some(fg), Some(face)) => Some((fg, face)),
        _ => None,
    }
}

/// The flag bits of a face hold nothing but flags, and the face can be read
/// back from them.
pub proof fn lemma_face_bits_round_trip(face: Face)
    ensures
        Face::valid_bits(face.spec_bits()),
        Face::spec_from_bits(face.spec_bits()) == Some(face),
{
}

/// The palette index of a color fits in four bits, and the color can be
/// read back from it.
pub proof fn lemma_color_code_round_trip(fg: Color)
    ensures
        fg.spec_code() <= 15,
        Color::spec_from_code(fg.spec_code()) == Some(fg),
{
}

/// In a foreground word the color and the flags keep apart: the low byte
/// is the palette index, untouched by the flags, and the byte above is the
/// flag bits, untouched by the color.
pub proof fn lemma_fg_word_layout(fg: Color, face: Face)
    ensures
        fg_word(fg, face) % 256 == fg.spec_code(),
        fg_word(fg, face) / 256 == face.spec_bits(),
        fg_word(fg, face) & 0x000F == fg.spec_code(),
        fg_word(fg, face) & 0x7000 == 256 * face.spec_bits(),
        fg_word(fg, face) & 0x8FF0 == 0,
{
    let low: u16 = fg.spec_code();
    let high: u16 = face.spec_bits() as u16;
    let word: u16 = fg_word(fg, face);
    assert(word == low + 256 * high);
    assert(word & 0x000F == low && word & 0x7000 == 256 * high && word & 0x8FF0 == 0)
        by (bit_vector)
        requires
            low <= 15,
            high % 16 == 0,
            high < 128,
            word == low + 256 * high,
    ;
}

/// Unpacking a packed foreground word gives back the color and the face
/// that went into it, whatever they are.
pub proof fn lemma_fg_word_round_trip(fg: Color, face: Face)
    ensures
        fg_parts(fg_word(fg, face)) == Some((fg, face)),
{
    lemma_face_bits_round_trip(face);
    lemma_color_code_round_trip(fg);
}

} // verus!
