use vstd::prelude::*;

verus! {

/// Every way in which decoding a resource can fail.
#[derive(Debug, Clone, Copy, PartialEq, Eq, Structural)]
pub enum GraphicError {
    /// A fixed-size record was given a buffer of the wrong length.
    MalformedRecord,
    /// A control byte of the compressed stream has an unknown upper nibble.
    CorruptStream,
    /// The compressed stream ends in the middle of a token.
    TruncatedStream,
    /// `width * height` does not stay below `u32::MAX`.
    InvalidDimensions,
    /// The graphic uses a layout version that is not supported.
    UnsupportedVersion,
    /// No metadata record carries the requested id.
    MetadataNotFound,
    /// The palette does not hold exactly 256 colours.
    InvalidPalette,
    /// The index buffer holds fewer than `width * height` bytes.
    InsufficientData,
}

} // verus!
