//! Image analysis and transformation: EXIF orientation correction, extraction
//! of a small palette of perceptually distinct colours, and resizing with
//! re-encoding into a chosen format.
//!
//! Decoding, encoding, resampling and the parsing of EXIF segments are the
//! work of the `image` and `exif` crates; [`codec`] and [`metadata`] state
//! what this library relies on of them. Everything else is proved against
//! the contracts of its functions:
//!
//! - [`color`]: hue, saturation and brightness in exact arithmetic, and
//!   when two colours count as distinct;
//! - [`tally`] and [`palette`]: the colour tally and the greedy selection
//!   of a unique colour set;
//! - [`grid`] and [`orientation`]: the pixel grid, the flips and turns on
//!   it, and the correction that an orientation code asks for;
//! - [`formats`]: the tags that select an output format and a filter;
//! - [`pipeline`]: analysis and resizing of encoded images.

pub mod codec;
pub mod color;
pub mod formats;
pub mod grid;
pub mod metadata;
pub mod orientation;
pub mod palette;
pub mod pipeline;
pub mod tally;

pub use metadata::{parse_exif_data, read_orientation};
pub use orientation::apply_orientation;
pub use codec::can_decode;
pub use pipeline::{
    analyze_image, get_unique_colors, resize_image, try_analyze_image, try_get_unique_colors,
    try_resize_image, ImageAnalysis, PipelineError,
};
