//! Decoding of graphic resources: fixed metadata records, the run-length
//! compressed pixel stream, palettes and palette-indexed images.

pub mod error;
pub mod image;
pub mod palette;
pub mod record;
pub mod stream;
pub mod table;

pub use error::GraphicError;
pub use image::{extract_image, Graphic, PixelGrid};
pub use palette::{Palette, Pixel};
pub use record::{dimensions_match, GraphicHeader, GraphicInfo, GraphicLayout};
pub use stream::GraphicData;
pub use table::{find_by_id, parse_info_table};
