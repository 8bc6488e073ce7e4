//! Output formats and resampling filters, and the tags that select them.

use vstd::prelude::*;

verus! {

/// The resampling kernels that a resize can use.
#[derive(Clone, Copy, Debug, PartialEq, Eq, Structural)]
pub enum ResampleFilter {
    CatmullRom,
    Gaussian,
    Lanczos3,
    Nearest,
    Triangle,
}

/// The formats that an image can be encoded in.
#[derive(Clone, Copy, Debug, PartialEq, Eq, Structural)]
pub enum OutputFormat {
    Png,
    WebP,
    Jpeg,
    Avif,
    Bmp,
    Gif,
    Tiff,
    Ico,
}

impl OutputFormat {
    /// Whether the format can carry an alpha channel. JPEG cannot.
    pub open spec fn carries_alpha(self) -> bool {
        self != OutputFormat::Jpeg
    }

    /// Tells whether the format can carry an alpha channel.
    pub fn has_alpha_support(self) -> (yes: bool)
        ensures
            yes == self.carries_alpha(),
    {
        match self {
            OutputFormat::Jpeg => false,
            _ => true,
        }
    }
}

/// The filter that a tag selects: one of the five known names, and the
/// triangle filter for any other tag.
pub open spec fn filter_of(tag: Seq<char>) -> ResampleFilter {
    if tag == "catmull_rom"@ {
        ResampleFilter::CatmullRom
    } else if tag == "gaussian"@ {
        ResampleFilter::Gaussian
    } else if tag == "lanczos3"@ {
        ResampleFilter::Lanczos3
    } else if tag == "nearest"@ {
        ResampleFilter::Nearest
    } else {
        ResampleFilter::Triangle
    }
}

/// The format that a tag selects: one of the eight known names, and PNG for
/// any other tag.
pub open spec fn format_of(tag: Seq<char>) -> OutputFormat {
    if tag == "webp"@ {
        OutputFormat::WebP
    } else if tag == "jpeg"@ {
        OutputFormat::Jpeg
    } else if tag == "avif"@ {
        OutputFormat::Avif
    } else if tag == "bmp"@ {
        OutputFormat::Bmp
    } else if tag == "gif"@ {
        OutputFormat::Gif
    } else if tag == "tiff"@ {
        OutputFormat::Tiff
    } else if tag == "ico"@ {
        OutputFormat::Ico
    } else {
        OutputFormat::Png
    }
}

/// Tells whether two strings hold the same text.
fn same_text(a: &str, b: &str) -> (same: bool)
    ensures
        same == (a@ == b@),
{
    a.to_owned() == b.to_owned()
}

/// Resolves a filter tag, falling back to the triangle filter.
pub fn resolve_filter(tag: &str) -> (filter: ResampleFilter)
    ensures
        filter == filter_of(tag@),
{
    if same_text(tag, "catmull_rom") {
        ResampleFilter::CatmullRom
    } else if same_text(tag, "gaussian") {
        ResampleFilter::Gaussian
    } else if same_text(tag, "lanczos3") {
        ResampleFilter::Lanczos3
    } else if same_text(tag, "nearest") {
        ResampleFilter::Nearest
    } else {
        ResampleFilter::Triangle
    }
}

/// Resolves a format tag, falling back to PNG.
pub fn resolve_format(tag: &str) -> (format: OutputFormat)
    ensures
        format == format_of(tag@),
{
    if same_text(tag, "webp") {
        OutputFormat::WebP
    } else if same_text(tag, "jpeg") {
        OutputFormat::Jpeg
    } else if same_text(tag, "avif") {
        OutputFormat::Avif
    } else if same_text(tag, "bmp") {
        OutputFormat::Bmp
    } else if same_text(tag, "gif") {
        OutputFormat::Gif
    } else if same_text(tag, "tiff") {
        OutputFormat::Tiff
    } else if same_text(tag, "ico") {
        OutputFormat::Ico
    } else {
        OutputFormat::Png
    }
}

} // verus!
