//! The font glyph table: sixteen 4x5 glyphs, one for each hexadecimal
//! digit, five bytes per glyph with the pixels in each byte's high nibble.
use vstd::prelude::*;
use vstd::string::StringExecFns;
use crate::register::RegisterError;

verus! {

/// The size of the glyph table in bytes: 16 glyphs of 5 rows.
pub const FONT_SET_SIZE: usize = 80;

/// The glyph table contents: for each digit 0..=0xF, five row bytes whose
/// high nibble holds the four pixels of that row.
pub open spec fn font_data() -> Seq<u8> {
    seq![
        0xF0u8, 0x90, 0x90, 0x90, 0xF0,
        0x20, 0x60, 0x20, 0x20, 0x70,
        0xF0, 0x10, 0xF0, 0x80, 0xF0,
        0xF0, 0x10, 0xF0, 0x10, 0xF0,
        0x90, 0x90, 0xF0, 0x10, 0x10,
        0xF0, 0x80, 0xF0, 0x10, 0xF0,
        0xF0, 0x80, 0xF0, 0x90, 0xF0,
        0xF0, 0x10, 0x20, 0x40, 0x40,
        0xF0, 0x90, 0xF0, 0x90, 0xF0,
        0xF0, 0x90, 0xF0, 0x10, 0xF0,
        0xF0, 0x90, 0xF0, 0x90, 0x90,
        0xE0, 0x90, 0xE0, 0x90, 0xE0,
        0xF0, 0x80, 0x80, 0x80, 0xF0,
        0xE0, 0x90, 0x90, 0x90, 0xE0,
        0xF0, 0x80, 0xF0, 0x80, 0xF0,
        0xF0, 0x80, 0xF0, 0x80, 0x80,
    ]
}

/// The sixteen 4x5 font glyphs, digit 0 first.
#[derive(Debug, Clone, Copy)]
pub struct FontSet(pub [u8; FONT_SET_SIZE]);

impl Default for FontSet {
    /// The standard glyph table.
    fn default() -> (r: Self)
        ensures
            r.0@ == font_data(),
    {
        let fontset: [u8; FONT_SET_SIZE] = [
            0xF0, 0x90, 0x90, 0x90, 0xF0, // 0
            0x20, 0x60, 0x20, 0x20, 0x70, // 1
            0xF0, 0x10, 0xF0, 0x80, 0xF0, // 2
            0xF0, 0x10, 0xF0, 0x10, 0xF0, // 3
            0x90, 0x90, 0xF0, 0x10, 0x10, // 4
            0xF0, 0x80, 0xF0, 0x10, 0xF0, // 5
            0xF0, 0x80, 0xF0, 0x90, 0xF0, // 6
            0xF0, 0x10, 0x20, 0x40, 0x40, // 7
            0xF0, 0x90, 0xF0, 0x90, 0xF0, // 8
            0xF0, 0x90, 0xF0, 0x10, 0xF0, // 9
            0xF0, 0x90, 0xF0, 0x90, 0x90, // A
            0xE0, 0x90, 0xE0, 0x90, 0xE0, // B
            0xF0, 0x80, 0x80, 0x80, 0xF0, // C
            0xE0, 0x90, 0x90, 0x90, 0xE0, // D
            0xF0, 0x80, 0xF0, 0x80, 0xF0, // E
            0xF0, 0x80, 0xF0, 0x80, 0x80, // F
        ];
        proof {
            assert(fontset@ =~= font_data());
        }
        FontSet(fontset)
    }
}

/// The character for one glyph pixel: '*' where the pixel is set.
pub open spec fn glyph_pixel_char(bit: u8) -> char {
    if bit == 1 {
        '*'
    } else {
        ' '
    }
}

/// One glyph row as text: the four pixels of the byte's high nibble, most
/// significant first, then a newline.
pub open spec fn glyph_row_chars(b: u8) -> Seq<char> {
    seq![
        glyph_pixel_char((b / 128) % 2),
        glyph_pixel_char((b / 64) % 2),
        glyph_pixel_char((b / 32) % 2),
        glyph_pixel_char((b / 16) % 2),
        '\n',
    ]
}

/// A whole glyph as text: its five rows in order.
pub open spec fn glyph_chars(data: Seq<u8>, digit: int) -> Seq<char> {
    glyph_row_chars(data[digit * 5]) + glyph_row_chars(data[digit * 5 + 1]) + glyph_row_chars(
        data[digit * 5 + 2],
    ) + glyph_row_chars(data[digit * 5 + 3]) + glyph_row_chars(data[digit * 5 + 4])
}

/// Renders one glyph row byte as text.
fn glyph_row_string(b: u8) -> (r: String)
    ensures
        r@ == glyph_row_chars(b),
{
    proof {
        reveal_strlit("*");
        reveal_strlit(" ");
        reveal_strlit("\n");
    }
    let mut s = String::new();
    if (b / 128) % 2 == 1 {
        s.append("*");
    } else {
        s.append(" ");
    }
    if (b / 64) % 2 == 1 {
        s.append("*");
    } else {
        s.append(" ");
    }
    if (b / 32) % 2 == 1 {
        s.append("*");
    } else {
        s.append(" ");
    }
    if (b / 16) % 2 == 1 {
        s.append("*");
    } else {
        s.append(" ");
    }
    s.append("\n");
    proof {
        assert(s@ =~= glyph_row_chars(b));
    }
    s
}

impl FontSet {
    /// Renders the glyph for `digit` as five lines of ' ' and '*'
    /// characters; a digit past 15 is a reported error.
    pub fn show_digit(&self, digit: usize) -> (r: Result<String, RegisterError>)
        ensures
            digit < 16 ==> (r matches Ok(s) && s@ == glyph_chars(self.0@, digit as int)),
            digit >= 16 ==> (r == Err::<String, RegisterError>(
                RegisterError::RegisterIndexOutOfBounds,
            )),
    {
        if digit >= 16 {
            return Err(RegisterError::RegisterIndexOutOfBounds);
        }
        let start_index = digit * 5;
        let mut s = glyph_row_string(self.0[start_index]);
        let row1 = glyph_row_string(self.0[start_index + 1]);
        s.append(row1.as_str());
        let row2 = glyph_row_string(self.0[start_index + 2]);
        s.append(row2.as_str());
        let row3 = glyph_row_string(self.0[start_index + 3]);
        s.append(row3.as_str());
        let row4 = glyph_row_string(self.0[start_index + 4]);
        s.append(row4.as_str());
        Ok(s)
    }
}

} // verus!
