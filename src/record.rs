use vstd::prelude::*;

use crate::error::GraphicError;
use vstd::std_specs::cmp::PartialEqSpec;

verus! {

/// Size in bytes of an encoded [`GraphicInfo`].
pub const INFO_SIZE: usize = 40;

/// Size in bytes of an encoded [`GraphicHeader`].
pub const HEADER_SIZE: usize = 16;

/// The little-endian `u32` stored in `b[at..at + 4]`.
pub open spec fn le_u32(b: Seq<u8>, at: int) -> u32 {
    (b[at] as int + b[at + 1] as int * 0x100 + b[at + 2] as int * 0x1_0000 + b[at + 3] as int
        * 0x100_0000) as u32
}

/// Reads the little-endian `u32` at `at`.
fn read_u32_le(b: &[u8], at: usize) -> (r: u32)
    requires
        at + 4 <= b@.len(),
    ensures
        r == le_u32(b@, at as int),
{
    b[at] as u32 + (b[at + 1] as u32) * 0x100 + (b[at + 2] as u32) * 0x1_0000 + (b[at + 3] as u32)
        * 0x100_0000
}

/// The value of the 32-bit two's-complement integer whose bits are `u`.
pub open spec fn signed_u32(u: u32) -> int {
    if u < 0x8000_0000 {
        u as int
    } else {
        u as int - 0x1_0000_0000
    }
}

/// Reads the little-endian two's-complement `i32` at `at`.
fn read_i32_le(b: &[u8], at: usize) -> (r: i32)
    requires
        at + 4 <= b@.len(),
    ensures
        r as int == signed_u32(le_u32(b@, at as int)),
{
    let u = read_u32_le(b, at);
    if u < 0x8000_0000 {
        u as i32
    } else {
        ((u - 0x8000_0000) as i32) - 0x4000_0000 - 0x4000_0000
    }
}

/// Whether a `width` x `height` image stays strictly below `u32::MAX` pixels.
pub open spec fn perimeter_ok(width: u32, height: u32) -> bool {
    (width as int) * (height as int) < u32::MAX as int
}

/// One entry of the metadata table (40 bytes on disk, little-endian).
#[derive(Debug, Clone, Copy)]
pub struct GraphicInfo {
    pub id: u32,
    pub address: u32,
    pub length: u32,
    pub offset_x: i32,
    pub offset_y: i32,
    pub width: u32,
    pub height: u32,
    pub tile_east: u8,
    pub tile_south: u8,
    pub access: u8,
    pub unknown: [u8; 5],
    pub map: u32,
}

/// Whether `info` is what the 40 bytes `b` encode.
pub open spec fn info_encoded_by(info: GraphicInfo, b: Seq<u8>) -> bool {
    &&& b.len() == INFO_SIZE
    &&& info.id == le_u32(b, 0)
    &&& info.address == le_u32(b, 4)
    &&& info.length == le_u32(b, 8)
    &&& info.offset_x as int == signed_u32(le_u32(b, 12))
    &&& info.offset_y as int == signed_u32(le_u32(b, 16))
    &&& info.width == le_u32(b, 20)
    &&& info.height == le_u32(b, 24)
    &&& info.tile_east == b[28]
    &&& info.tile_south == b[29]
    &&& info.access == b[30]
    &&& info.unknown@ == b.subrange(31, 36)
    &&& info.map == le_u32(b, 36)
}

/// The header that precedes each graphic blob (16 bytes on disk, little-endian).
#[derive(Debug, Clone, Copy)]
pub struct GraphicHeader {
    pub mark: [char; 2],
    pub version: u8,
    pub unknown: u8,
    pub width: u32,
    pub height: u32,
    pub length: u32,
}

/// Whether `header` is what the 16 bytes `b` encode.
pub open spec fn header_encoded_by(header: GraphicHeader, b: Seq<u8>) -> bool {
    &&& b.len() == HEADER_SIZE
    &&& header.mark[0] == b[0] as char
    &&& header.mark[1] == b[1] as char
    &&& header.version == b[2]
    &&& header.unknown == b[3]
    &&& header.width == le_u32(b, 4)
    &&& header.height == le_u32(b, 8)
    &&& header.length == le_u32(b, 12)
}

/// Decodes the entry stored in `bytes[at..at + 40]`.
pub(crate) fn info_at(bytes: &[u8], at: usize) -> (info: GraphicInfo)
    requires
        at + INFO_SIZE <= bytes@.len(),
    ensures
        info_encoded_by(info, bytes@.subrange(at as int, at + INFO_SIZE)),
{
    let ghost b = bytes@.subrange(at as int, at + INFO_SIZE);
    let _ = bytes.len();
    let info = GraphicInfo {
        id: read_u32_le(bytes, at),
        address: read_u32_le(bytes, at + 4),
        length: read_u32_le(bytes, at + 8),
        offset_x: read_i32_le(bytes, at + 12),
        offset_y: read_i32_le(bytes, at + 16),
        width: read_u32_le(bytes, at + 20),
        height: read_u32_le(bytes, at + 24),
        tile_east: bytes[at + 28],
        tile_south: bytes[at + 29],
        access: bytes[at + 30],
        unknown: [bytes[at + 31], bytes[at + 32], bytes[at + 33], bytes[at + 34], bytes[at + 35]],
        map: read_u32_le(bytes, at + 36),
    };
    assert(info.unknown@ =~= b.subrange(31, 36));
    info
}

/// Decodes the header stored in `bytes[at..at + 16]`.
pub(crate) fn header_at(bytes: &[u8], at: usize) -> (header: GraphicHeader)
    requires
        at + HEADER_SIZE <= bytes@.len(),
    ensures
        header_encoded_by(header, bytes@.subrange(at as int, at + HEADER_SIZE)),
{
    let _ = bytes.len();
    GraphicHeader {
        mark: [bytes[at] as char, bytes[at + 1] as char],
        version: bytes[at + 2],
        unknown: bytes[at + 3],
        width: read_u32_le(bytes, at + 4),
        height: read_u32_le(bytes, at + 8),
        length: read_u32_le(bytes, at + 12),
    }
}

/// Whether a metadata entry and a blob header agree on width, height and length.
pub open spec fn dims_agree(info: GraphicInfo, header: GraphicHeader) -> bool {
    &&& info.width == header.width
    &&& info.height == header.height
    &&& info.length == header.length
}

/// Whether a metadata entry and a blob header describe the same image: they
/// agree on `width`, `height` and `length`, whatever their other fields hold.
pub fn dimensions_match(info: &GraphicInfo, header: &GraphicHeader) -> (r: bool)
    ensures
        r == dims_agree(*info, *header),
{
    info.width == header.width && info.height == header.height && info.length == header.length
}

impl GraphicInfo {
    /// Decodes an entry from exactly 40 bytes.
    pub fn from_bytes(bytes: &[u8]) -> (r: Result<GraphicInfo, GraphicError>)
        ensures
            bytes@.len() == INFO_SIZE <==> r is Ok,
            r matches Ok(info) ==> info_encoded_by(info, bytes@),
            r matches Err(e) ==> e == GraphicError::MalformedRecord,
    {
        if bytes.len() != INFO_SIZE {
            return Err(GraphicError::MalformedRecord);
        }
        assert(bytes@.subrange(0, INFO_SIZE as int) =~= bytes@);
        Ok(info_at(bytes, 0))
    }

    /// Whether the pixel count of this entry stays strictly below `u32::MAX`.
    pub fn valid_perimeter(&self) -> (r: bool)
        ensures
            r == perimeter_ok(self.width, self.height),
    {
        let w = self.width as u64;
        let h = self.height as u64;
        assert(w * h <= 0xFFFF_FFFFu64 * 0xFFFF_FFFFu64) by (nonlinear_arith)
            requires
                w <= 0xFFFF_FFFF,
                h <= 0xFFFF_FFFF,
        ;
        w * h < u32::MAX as u64
    }
}

/// How the payload of a graphic blob is laid out, as selected by its version.
#[derive(Debug, Clone, Copy, PartialEq, Eq, Structural)]
pub enum GraphicLayout {
    /// Versions 0 and 1: the payload holds palette indices only.
    Simple,
    /// Versions 2 and 3: the payload carries its own palette.
    PaletteEmbedded,
}

/// The layout that a header version selects, if any.
pub open spec fn layout_of(version: u8) -> Option<GraphicLayout> {
    if version <= 1 {
        Some(GraphicLayout::Simple)
    } else if version <= 3 {
        Some(GraphicLayout::PaletteEmbedded)
    } else {
        None
    }
}

impl GraphicHeader {
    /// Decodes a header from exactly 16 bytes; the mark is two one-byte characters.
    pub fn from_bytes(bytes: &[u8]) -> (r: Result<GraphicHeader, GraphicError>)
        ensures
            bytes@.len() == HEADER_SIZE <==> r is Ok,
            r matches Ok(header) ==> header_encoded_by(header, bytes@),
            r matches Err(e) ==> e == GraphicError::MalformedRecord,
    {
        if bytes.len() != HEADER_SIZE {
            return Err(GraphicError::MalformedRecord);
        }
        assert(bytes@.subrange(0, HEADER_SIZE as int) =~= bytes@);
        Ok(header_at(bytes, 0))
    }

    /// Whether the payload is run-length compressed: the version is odd.
    pub fn is_compressed(&self) -> (r: bool)
        ensures
            r == (self.version % 2 == 1),
    {
        self.version % 2 == 1
    }

    /// The payload layout; versions above 3 are unknown.
    pub fn layout(&self) -> (r: Result<GraphicLayout, GraphicError>)
        ensures
            r matches Ok(l) ==> layout_of(self.version) == Some(l),
            r matches Err(e) ==> layout_of(self.version) is None && e
                == GraphicError::UnsupportedVersion,
    {
        if self.version <= 1 {
            Ok(GraphicLayout::Simple)
        } else if self.version <= 3 {
            Ok(GraphicLayout::PaletteEmbedded)
        } else {
            Err(GraphicError::UnsupportedVersion)
        }
    }
}

impl PartialEq<GraphicHeader> for GraphicInfo {
    fn eq(&self, other: &GraphicHeader) -> (r: bool) {
        dimensions_match(self, other)
    }
}

impl vstd::std_specs::cmp::PartialEqSpecImpl<GraphicHeader> for GraphicInfo {
    open spec fn obeys_eq_spec() -> bool {
        true
    }

    open spec fn eq_spec(&self, other: &GraphicHeader) -> bool {
        dims_agree(*self, *other)
    }
}

impl PartialEq<GraphicInfo> for GraphicHeader {
    fn eq(&self, other: &GraphicInfo) -> (r: bool) {
        dimensions_match(other, self)
    }
}

impl vstd::std_specs::cmp::PartialEqSpecImpl<GraphicInfo> for GraphicHeader {
    open spec fn obeys_eq_spec() -> bool {
        true
    }

    open spec fn eq_spec(&self, other: &GraphicInfo) -> bool {
        dims_agree(*other, *self)
    }
}

impl PartialEq for GraphicInfo {
    fn eq(&self, other: &GraphicInfo) -> (r: bool) {
        let same_unknown = self.unknown[0] == other.unknown[0] && self.unknown[1] == other.unknown[1]
            && self.unknown[2] == other.unknown[2] && self.unknown[3] == other.unknown[3]
            && self.unknown[4] == other.unknown[4];
        proof {
            if same_unknown {
                assert(self.unknown@ =~= other.unknown@);
            }
        }
        self.id == other.id && self.address == other.address && self.length == other.length
            && self.offset_x == other.offset_x && self.offset_y == other.offset_y && self.width
            == other.width && self.height == other.height && self.tile_east == other.tile_east
            && self.tile_south == other.tile_south && self.access == other.access && same_unknown
            && self.map == other.map
    }
}

impl vstd::std_specs::cmp::PartialEqSpecImpl for GraphicInfo {
    open spec fn obeys_eq_spec() -> bool {
        true
    }

    open spec fn eq_spec(&self, other: &GraphicInfo) -> bool {
        &&& self.id == other.id
        &&& self.address == other.address
        &&& self.length == other.length
        &&& self.offset_x == other.offset_x
        &&& self.offset_y == other.offset_y
        &&& self.width == other.width
        &&& self.height == other.height
        &&& self.tile_east == other.tile_east
        &&& self.tile_south == other.tile_south
        &&& self.access == other.access
        &&& self.unknown@ == other.unknown@
        &&& self.map == other.map
    }
}

impl PartialEq for GraphicHeader {
    fn eq(&self, other: &GraphicHeader) -> (r: bool) {
        self.mark[0] == other.mark[0] && self.mark[1] == other.mark[1] && self.version
            == other.version && self.unknown == other.unknown && self.width == other.width
            && self.height == other.height && self.length == other.length
    }
}

impl vstd::std_specs::cmp::PartialEqSpecImpl for GraphicHeader {
    open spec fn obeys_eq_spec() -> bool {
        true
    }

    open spec fn eq_spec(&self, other: &GraphicHeader) -> bool {
        &&& self.mark[0] == other.mark[0]
        &&& self.mark[1] == other.mark[1]
        &&& self.version == other.version
        &&& self.unknown == other.unknown
        &&& self.width == other.width
        &&& self.height == other.height
        &&& self.length == other.length
    }
}

/// The metadata-to-header comparison does not depend on which side is on the
/// left, and it holds exactly when width, height and length all agree.
pub proof fn lemma_dimensions_match_symmetric(info: GraphicInfo, header: GraphicHeader)
    ensures
        info.eq_spec(&header) == header.eq_spec(&info),
        info.eq_spec(&header) <==> (info.width == header.width && info.height == header.height
            && info.length == header.length),
{
}

} // verus!
