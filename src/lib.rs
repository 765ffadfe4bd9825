//! Dominant colours and a solid-colour thumbnail of a raster image, with a
//! plain-text report that embeds the thumbnail as a data URL.

pub mod text;
pub mod color;
pub mod scale;
pub mod codec;
pub mod swatch;
pub mod report;
pub mod summary;
pub mod format;
