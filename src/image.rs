use vstd::arithmetic::div_mod::{
    lemma_div_pos_is_pos, lemma_fundamental_div_mod, lemma_fundamental_div_mod_converse,
    lemma_multiply_divide_lt,
};
use vstd::prelude::*;

use crate::error::GraphicError;
use crate::palette::{Palette, Pixel};
use crate::record::{
    header_at, header_encoded_by, layout_of, perimeter_ok, GraphicHeader, GraphicInfo,
    GraphicLayout, HEADER_SIZE,
};
use crate::stream::{data_result, decode_stream, push_copy, GraphicData};

verus! {

/// The number of colours that a palette must hold to be indexed by any byte.
pub const PALETTE_SIZE: usize = 256;

/// A graphic blob: its header, its payload, and the palette part that only the
/// palette-embedded layout fills in.
#[derive(Debug)]
pub struct Graphic {
    pub header: GraphicHeader,
    pub palette_length: Option<u32>,
    pub data: GraphicData,
    pub palette: Option<Palette>,
}

/// A reconstructed image: `pixels` holds the rows top to bottom, each row
/// left to right.
#[derive(Debug)]
pub struct PixelGrid {
    pub width: u32,
    pub height: u32,
    pub pixels: Vec<Pixel>,
}

/// The position in the decoded buffer of the `i`-th output pixel: output row
/// `y` comes from input row `height - 1 - y`.
pub open spec fn flipped_index(width: nat, height: nat, i: int) -> int {
    (height - 1 - i / width as int) * width + i % width as int
}

/// The pixels of a `width` x `height` image whose index rows are stored
/// bottom-up in `data`, looked up in `palette`.
pub open spec fn flipped_image(data: Seq<u8>, width: nat, height: nat, palette: Seq<Pixel>) -> Seq<
    Pixel,
> {
    Seq::new(width * height, |i: int| palette[data[flipped_index(width, height, i)] as int])
}

/// The colour at column `x` of row `y` of a grid `width` pixels wide.
pub open spec fn grid_at(pixels: Seq<Pixel>, width: int, x: int, y: int) -> Pixel {
    pixels[y * width + x]
}

/// What reconstruction gives for the index bytes `data`: nothing for an empty
/// buffer, an error where the dimensions, the palette or the buffer size do
/// not allow it, else the flipped image.
pub open spec fn reconstruct(data: Seq<u8>, width: u32, height: u32, palette: Seq<Pixel>) -> Result<
    Option<Seq<Pixel>>,
    GraphicError,
> {
    if data.len() == 0 {
        Ok(None)
    } else if !perimeter_ok(width, height) {
        Err(GraphicError::InvalidDimensions)
    } else if palette.len() != PALETTE_SIZE {
        Err(GraphicError::InvalidPalette)
    } else if data.len() < width * height {
        Err(GraphicError::InsufficientData)
    } else {
        Ok(Some(flipped_image(data, width as nat, height as nat, palette)))
    }
}

/// `r` seen as the pixels it holds.
pub open spec fn grid_result(r: Result<Option<PixelGrid>, GraphicError>) -> Result<
    Option<Seq<Pixel>>,
    GraphicError,
> {
    match r {
        Ok(Some(g)) => Ok(Some(g.pixels@)),
        Ok(None) => Ok(None),
        Err(e) => Err(e),
    }
}

/// What a whole blob gives: its header selects the layout and whether the
/// payload after the header is compressed; the payload is then reconstructed
/// with the dimensions of the metadata entry.
pub open spec fn extraction(blob: Seq<u8>, info: GraphicInfo, palette: Seq<Pixel>) -> Result<
    Option<Seq<Pixel>>,
    GraphicError,
> {
    if blob.len() < HEADER_SIZE {
        Err(GraphicError::MalformedRecord)
    } else if layout_of(blob[2]) != Some(GraphicLayout::Simple) {
        Err(GraphicError::UnsupportedVersion)
    } else if blob[2] % 2 == 1 {
        match decode_stream(blob.skip(HEADER_SIZE as int)) {
            Ok(data) => reconstruct(data, info.width, info.height, palette),
            Err(e) => Err(e),
        }
    } else {
        reconstruct(blob.skip(HEADER_SIZE as int), info.width, info.height, palette)
    }
}

proof fn lemma_flip_in_bounds(i: int, w: int, h: int)
    requires
        0 <= i < w * h,
        0 < w,
    ensures
        0 <= i % w < w,
        0 <= i / w < h,
        0 <= (h - 1 - i / w) * w + i % w < w * h,
{
    lemma_fundamental_div_mod(i, w);
    lemma_div_pos_is_pos(i, w);
    lemma_multiply_divide_lt(i, w, h);
    let y = i / w;
    let x = i % w;
    assert(0 <= x < w) by {
        assert(i == w * y + x);
        assert(0 <= x) by (nonlinear_arith)
            requires
                i == w * y + x,
                0 <= i,
                0 < w,
                x == i % w,
        ;
    }
    assert(0 <= (h - 1 - y) * w + x < w * h) by (nonlinear_arith)
        requires
            0 <= y < h,
            0 <= x < w,
    ;
}

proof fn lemma_grid_position(x: int, y: int, w: int, h: int)
    requires
        0 <= x < w,
        0 <= y < h,
    ensures
        0 <= y * w + x < w * h,
        (y * w + x) % w == x,
        (y * w + x) / w == y,
{
    lemma_fundamental_div_mod_converse(y * w + x, w, y, x);
    assert(0 <= y * w + x < w * h) by (nonlinear_arith)
        requires
            0 <= x < w,
            0 <= y < h,
    ;
}

impl Graphic {
    /// Splits a blob of the simple layout into its 16-byte header and its payload.
    pub fn new_v1(binary: Vec<u8>) -> (r: Result<Graphic, GraphicError>)
        ensures
            binary@.len() >= HEADER_SIZE <==> r is Ok,
            r matches Ok(g) ==> {
                &&& header_encoded_by(g.header, binary@.subrange(0, HEADER_SIZE as int))
                &&& g.data@ == binary@.skip(HEADER_SIZE as int)
                &&& g.palette_length is None
                &&& g.palette is None
            },
            r matches Err(e) ==> e == GraphicError::MalformedRecord,
    {
        if binary.len() < HEADER_SIZE {
            return Err(GraphicError::MalformedRecord);
        }
        let header = header_at(binary.as_slice(), 0);
        let mut data: Vec<u8> = Vec::new();
        push_copy(&mut data, &binary, HEADER_SIZE, binary.len() - HEADER_SIZE);
        assert(data@ =~= binary@.skip(HEADER_SIZE as int));
        Ok(Graphic { header, palette_length: None, data: GraphicData(data), palette: None })
    }

    /// Maps the decoded index bytes through `palette` into an image of the
    /// size given by `info`, flipped vertically; `None` when there is no data.
    pub fn build_v1_image(&self, info: &GraphicInfo, palette: &Palette) -> (r: Result<
        Option<PixelGrid>,
        GraphicError,
    >)
        ensures
            grid_result(r) == reconstruct(self.data@, info.width, info.height, palette@),
            r matches Ok(Some(g)) ==> g.width == info.width && g.height == info.height,
            r matches Ok(Some(g)) ==> forall|x: int, y: int|
                0 <= x < info.width && 0 <= y < info.height ==> #[trigger] grid_at(
                    g.pixels@,
                    info.width as int,
                    x,
                    y,
                ) == palette@[self.data@[(info.height - 1 - y) * info.width + x] as int],
    {
        let data = &self.data.0;
        if data.len() == 0 {
            return Ok(None);
        }
        if !info.valid_perimeter() {
            return Err(GraphicError::InvalidDimensions);
        }
        if palette.0.len() != PALETTE_SIZE {
            return Err(GraphicError::InvalidPalette);
        }
        let w = info.width as usize;
        let h = info.height as usize;
        let total = w * h;
        if data.len() < total {
            return Err(GraphicError::InsufficientData);
        }
        let ghost image = flipped_image(data@, w as nat, h as nat, palette@);
        let mut pixels: Vec<Pixel> = Vec::new();
        let mut i: usize = 0;
        while i < total
            invariant
                w == info.width,
                h == info.height,
                total == w * h,
                total <= data@.len(),
                palette.0@.len() == PALETTE_SIZE,
                image == flipped_image(data@, w as nat, h as nat, palette@),
                i <= total,
                pixels@.len() == i,
                forall|j: int| 0 <= j < i ==> pixels@[j] == image[j],
            decreases total - i,
        {
            proof {
                lemma_flip_in_bounds(i as int, w as int, h as int);
            }
            let y = i / w;
            let x = i % w;
            let index = data[(h - 1 - y) * w + x];
            pixels.push(palette.0[index as usize]);
            i += 1;
        }
        assert(pixels@ =~= image);
        let grid = PixelGrid { width: info.width, height: info.height, pixels };
        proof {
            assert forall|x: int, y: int|
                0 <= x < info.width && 0 <= y < info.height implies #[trigger] grid_at(
                grid.pixels@,
                info.width as int,
                x,
                y,
            ) == palette@[self.data@[(info.height - 1 - y) * info.width + x] as int] by {
                lemma_grid_position(x, y, w as int, h as int);
            }
        }
        Ok(Some(grid))
    }
}

/// Turns one blob of the graphic file into an image: splits off the header,
/// rejects layouts other than the simple one, expands the payload when the
/// version is odd, and reconstructs it with the size given by `info`.
pub fn extract_image(info: &GraphicInfo, blob: Vec<u8>, palette: &Palette) -> (r: Result<
    Option<PixelGrid>,
    GraphicError,
>)
    ensures
        grid_result(r) == extraction(blob@, *info, palette@),
{
    let ghost bytes = blob@;
    let mut graphic = match Graphic::new_v1(blob) {
        Ok(g) => g,
        Err(e) => {
            return Err(e);
        },
    };
    assert(graphic.header.version == bytes[2]);
    match graphic.header.layout() {
        Ok(GraphicLayout::Simple) => {},
        _ => {
            return Err(GraphicError::UnsupportedVersion);
        },
    }
    if graphic.header.is_compressed() {
        let decoded = graphic.data.decode();
        match decoded {
            Ok(d) => {
                graphic.data = d;
            },
            Err(e) => {
                assert(data_result(decoded) == decode_stream(bytes.skip(HEADER_SIZE as int)));
                return Err(e);
            },
        }
    }
    graphic.build_v1_image(info, palette)
}

/// Reconstruction is a pure function of the index bytes, the width and height
/// of the metadata entry, and the palette's colours: on equal such inputs it
/// gives equal results, down to every pixel, whatever the other fields hold.
pub proof fn lemma_reconstruction_deterministic(
    first: Graphic,
    first_info: GraphicInfo,
    first_palette: Palette,
    second: Graphic,
    second_info: GraphicInfo,
    second_palette: Palette,
)
    requires
        first.data@ == second.data@,
        first_info.width == second_info.width,
        first_info.height == second_info.height,
        first_palette@ == second_palette@,
    ensures
        reconstruct(first.data@, first_info.width, first_info.height, first_palette@)
            == reconstruct(second.data@, second_info.width, second_info.height, second_palette@),
{
}

} // verus!
