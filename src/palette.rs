use vstd::prelude::*;

use crate::error::GraphicError;

verus! {

/// Size in bytes of an encoded [`Pixel`].
pub const PIXEL_SIZE: usize = 3;

/// The most colours that a palette file contributes.
pub const MAX_FILE_COLORS: usize = 224;

/// An RGB colour; on disk it is stored as the three bytes `b`, `g`, `r`.
#[derive(Debug, Clone, Copy, PartialEq, Eq, Structural)]
pub struct Pixel {
    pub b: u8,
    pub g: u8,
    pub r: u8,
}

/// The colour stored in the triple that starts at byte `at` of `bytes`.
pub open spec fn pixel_at_spec(bytes: Seq<u8>, at: int) -> Pixel {
    Pixel { b: bytes[at], g: bytes[at + 1], r: bytes[at + 2] }
}

/// Reads the triple that starts at byte `at`.
fn pixel_at(bytes: &[u8], at: usize) -> (p: Pixel)
    requires
        at + PIXEL_SIZE <= bytes@.len(),
    ensures
        p == pixel_at_spec(bytes@, at as int),
{
    Pixel { b: bytes[at], g: bytes[at + 1], r: bytes[at + 2] }
}

impl Pixel {
    /// Decodes a colour from exactly three bytes in the order blue, green, red.
    pub fn from_bytes(bytes: &[u8]) -> (r: Result<Pixel, GraphicError>)
        ensures
            bytes@.len() == PIXEL_SIZE <==> r is Ok,
            r matches Ok(p) ==> p == pixel_at_spec(bytes@, 0),
            r matches Err(e) ==> e == GraphicError::MalformedRecord,
    {
        if bytes.len() != PIXEL_SIZE {
            return Err(GraphicError::MalformedRecord);
        }
        Ok(pixel_at(bytes, 0))
    }
}

/// The 16 fixed colours that open every palette.
pub open spec fn leading_colors() -> Seq<Pixel> {
    seq![
        Pixel { b: 0x00, g: 0x00, r: 0x00 },
        Pixel { b: 0x80, g: 0x00, r: 0x00 },
        Pixel { b: 0x00, g: 0x80, r: 0x00 },
        Pixel { b: 0x80, g: 0x80, r: 0x00 },
        Pixel { b: 0x00, g: 0x00, r: 0x80 },
        Pixel { b: 0x80, g: 0x00, r: 0x80 },
        Pixel { b: 0x00, g: 0x80, r: 0x80 },
        Pixel { b: 0xC0, g: 0xC0, r: 0xC0 },
        Pixel { b: 0xC0, g: 0xDC, r: 0xC0 },
        Pixel { b: 0xA6, g: 0xCA, r: 0xF0 },
        Pixel { b: 0xDE, g: 0x00, r: 0x00 },
        Pixel { b: 0xFF, g: 0x5F, r: 0x00 },
        Pixel { b: 0xFF, g: 0xFF, r: 0xA0 },
        Pixel { b: 0x00, g: 0x5F, r: 0xD2 },
        Pixel { b: 0x50, g: 0xD2, r: 0xFF },
        Pixel { b: 0x28, g: 0xE1, r: 0x28 },
    ]
}

/// The 16 fixed colours that close every palette.
pub open spec fn trailing_colors() -> Seq<Pixel> {
    seq![
        Pixel { b: 0xF5, g: 0xC3, r: 0x96 },
        Pixel { b: 0x1E, g: 0xA0, r: 0x5F },
        Pixel { b: 0xC3, g: 0x7D, r: 0x46 },
        Pixel { b: 0x9B, g: 0x55, r: 0x1E },
        Pixel { b: 0x46, g: 0x41, r: 0x37 },
        Pixel { b: 0x28, g: 0x23, r: 0x1E },
        Pixel { b: 0xFF, g: 0xFB, r: 0xF0 },
        Pixel { b: 0x3A, g: 0x6E, r: 0xA5 },
        Pixel { b: 0x80, g: 0x80, r: 0x80 },
        Pixel { b: 0xFF, g: 0x00, r: 0x00 },
        Pixel { b: 0x00, g: 0xFF, r: 0x00 },
        Pixel { b: 0xFF, g: 0xFF, r: 0x00 },
        Pixel { b: 0x00, g: 0x00, r: 0xFF },
        Pixel { b: 0xFF, g: 0x80, r: 0xFF },
        Pixel { b: 0x00, g: 0xFF, r: 0xFF },
        Pixel { b: 0xFF, g: 0xFF, r: 0xFF },
    ]
}

/// How many colours a palette file of `n` bytes contributes: one per whole
/// triple, at most 224.
pub open spec fn file_color_count(n: nat) -> nat {
    if n / 3 < MAX_FILE_COLORS {
        n / 3
    } else {
        MAX_FILE_COLORS as nat
    }
}

/// The colours taken from a palette file: its leading whole triples, at most 224.
pub open spec fn file_colors(bytes: Seq<u8>) -> Seq<Pixel> {
    Seq::new(file_color_count(bytes.len()), |i: int| pixel_at_spec(bytes, 3 * i))
}

/// The palette built from the bytes of a palette file.
pub open spec fn palette_of(bytes: Seq<u8>) -> Seq<Pixel> {
    leading_colors() + file_colors(bytes) + trailing_colors()
}

/// An ordered table of colours, indexed by the bytes of a decoded image.
#[derive(Debug)]
pub struct Palette(pub Vec<Pixel>);

impl View for Palette {
    type V = Seq<Pixel>;

    open spec fn view(&self) -> Seq<Pixel> {
        self.0@
    }
}

impl Palette {
    /// Builds a palette: the 16 leading colours, the colours of the file, and
    /// the 16 trailing colours. A file of 224 or more triples gives 256 colours.
    pub fn new(bytes: &[u8]) -> (r: Palette)
        ensures
            r@ == palette_of(bytes@),
            r@.len() == file_color_count(bytes@.len()) + 32,
    {
        let mut palette = vec![
            Pixel { b: 0x00, g: 0x00, r: 0x00 },
            Pixel { b: 0x80, g: 0x00, r: 0x00 },
            Pixel { b: 0x00, g: 0x80, r: 0x00 },
            Pixel { b: 0x80, g: 0x80, r: 0x00 },
            Pixel { b: 0x00, g: 0x00, r: 0x80 },
            Pixel { b: 0x80, g: 0x00, r: 0x80 },
            Pixel { b: 0x00, g: 0x80, r: 0x80 },
            Pixel { b: 0xC0, g: 0xC0, r: 0xC0 },
            Pixel { b: 0xC0, g: 0xDC, r: 0xC0 },
            Pixel { b: 0xA6, g: 0xCA, r: 0xF0 },
            Pixel { b: 0xDE, g: 0x00, r: 0x00 },
            Pixel { b: 0xFF, g: 0x5F, r: 0x00 },
            Pixel { b: 0xFF, g: 0xFF, r: 0xA0 },
            Pixel { b: 0x00, g: 0x5F, r: 0xD2 },
            Pixel { b: 0x50, g: 0xD2, r: 0xFF },
            Pixel { b: 0x28, g: 0xE1, r: 0x28 },
        ];
        assert(palette@ =~= leading_colors());
        let mut middle = Self::build(bytes);
        let mut suffix = vec![
            Pixel { b: 0xF5, g: 0xC3, r: 0x96 },
            Pixel { b: 0x1E, g: 0xA0, r: 0x5F },
            Pixel { b: 0xC3, g: 0x7D, r: 0x46 },
            Pixel { b: 0x9B, g: 0x55, r: 0x1E },
            Pixel { b: 0x46, g: 0x41, r: 0x37 },
            Pixel { b: 0x28, g: 0x23, r: 0x1E },
            Pixel { b: 0xFF, g: 0xFB, r: 0xF0 },
            Pixel { b: 0x3A, g: 0x6E, r: 0xA5 },
            Pixel { b: 0x80, g: 0x80, r: 0x80 },
            Pixel { b: 0xFF, g: 0x00, r: 0x00 },
            Pixel { b: 0x00, g: 0xFF, r: 0x00 },
            Pixel { b: 0xFF, g: 0xFF, r: 0x00 },
            Pixel { b: 0x00, g: 0x00, r: 0xFF },
            Pixel { b: 0xFF, g: 0x80, r: 0xFF },
            Pixel { b: 0x00, g: 0xFF, r: 0xFF },
            Pixel { b: 0xFF, g: 0xFF, r: 0xFF },
        ];
        assert(suffix@ =~= trailing_colors());
        palette.append(&mut middle);
        palette.append(&mut suffix);
        Palette(palette)
    }

    /// The colours of the file: consecutive triples, at most 224; an
    /// incomplete last triple is dropped.
    fn build(bytes: &[u8]) -> (r: Vec<Pixel>)
        ensures
            r@ == file_colors(bytes@),
    {
        let count = if bytes.len() / PIXEL_SIZE < MAX_FILE_COLORS {
            bytes.len() / PIXEL_SIZE
        } else {
            MAX_FILE_COLORS
        };
        let mut ret: Vec<Pixel> = Vec::new();
        let mut i: usize = 0;
        while i < count
            invariant
                i <= count,
                count == file_color_count(bytes@.len()),
                ret@.len() == i,
                forall|j: int| 0 <= j < i ==> ret@[j] == pixel_at_spec(bytes@, 3 * j),
            decreases count - i,
        {
            ret.push(pixel_at(bytes, PIXEL_SIZE * i));
            i += 1;
        }
        assert(ret@ =~= file_colors(bytes@));
        ret
    }
}

} // verus!
