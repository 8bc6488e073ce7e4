//! The two operations on encoded images: analysis, and resizing with
//! re-encoding.
//!
//! Both work on bytes that decode to an image and require so. A caller who
//! does not know whether the bytes decode asks `can_decode` first, or calls
//! the `try_` form of the operation, which asks first.

use crate::codec::{
    can_decode, decode, decoded, encoding_of, image_has_alpha, image_height, image_pixels,
    image_width, is_empty, is_empty_image, resize_to_fill, resized_to_fill, to_rgb8,
    without_alpha, write_to,
};
use crate::formats::{
    filter_of, format_of, resolve_filter, resolve_format, OutputFormat, ResampleFilter,
};
use crate::metadata::{orientation_of, parse_exif_data, read_orientation, tag_pairs_of};
use crate::orientation::{apply_orientation, oriented};
use crate::palette::{is_palette_of, unique_colors_of, MAX_UNIQUE_COLORS};
use vstd::prelude::*;

verus! {

/// Why an operation on an encoded image produced nothing.
#[derive(Clone, Copy, Debug, PartialEq, Eq, Structural)]
pub enum PipelineError {
    /// The bytes do not decode to an image.
    Decode,
    /// The image has no pixels, or it could not be encoded in the requested
    /// format.
    Encode,
}

/// What an analysis finds: the EXIF tags of the image as pairs of tag name
/// and display value, and its unique colours as `#RRGGBB`.
#[derive(Debug, PartialEq, Eq)]
pub struct ImageAnalysis {
    pub exif_data: Vec<[String; 2]>,
    pub unique_colors: Vec<String>,
}

/// The image as it goes into the resize: stripped of its alpha channel when
/// the format cannot carry one.
pub open spec fn normalized(img: image::DynamicImage, format: OutputFormat) -> image::DynamicImage {
    if format.carries_alpha() {
        img
    } else {
        without_alpha(img)
    }
}

/// The image as it goes into the encoder: corrected for its orientation,
/// normalised for the format, and resized to fill the box. An image without
/// pixels cannot be resized and gives nothing.
pub open spec fn prepared(
    img: image::DynamicImage,
    orientation: u16,
    width: u32,
    height: u32,
    format: OutputFormat,
    filter: ResampleFilter,
) -> Option<image::DynamicImage> {
    let flat = normalized(oriented(img, orientation), format);
    if is_empty_image(flat) {
        None
    } else {
        Some(resized_to_fill(flat, width, height, filter))
    }
}

/// What comes of an encoder's outcome: its bytes, or the encoding error.
pub open spec fn encoding_outcome(bytes: Option<Seq<u8>>) -> Result<Seq<u8>, PipelineError> {
    match bytes {
        Some(b) => Ok(b),
        None => Err(PipelineError::Encode),
    }
}

/// The bytes of a result, where it has any.
pub open spec fn outcome_view(out: Result<Vec<u8>, PipelineError>) -> Result<
    Seq<u8>,
    PipelineError,
> {
    match out {
        Ok(bytes) => Ok(bytes@),
        Err(e) => Err(e),
    }
}

/// What a resize of a decoded image has to give: the encoding error for an
/// image without pixels, and for every format but AVIF the outcome of
/// encoding the prepared image. Of AVIF only this is stated: the result is
/// bytes from the encoder, or the encoding error.
pub open spec fn is_resize_outcome(
    out: Result<Vec<u8>, PipelineError>,
    img: image::DynamicImage,
    orientation: u16,
    width: u32,
    height: u32,
    format: OutputFormat,
    filter: ResampleFilter,
) -> bool {
    &&& out != Err::<Vec<u8>, PipelineError>(PipelineError::Decode)
    &&& match prepared(img, orientation, width, height, format, filter) {
        Some(ready) => format != OutputFormat::Avif ==> outcome_view(out) == encoding_outcome(
            encoding_of(ready, format),
        ),
        None => out == Err::<Vec<u8>, PipelineError>(PipelineError::Encode),
    }
}

/// Decodes the image and returns its unique colours, each as `#RRGGBB`.
pub fn get_unique_colors(image_data: &[u8]) -> (palette: Vec<String>)
    requires
        decoded(image_data@) is Some,
    ensures
        is_palette_of(palette.deep_view(), image_pixels(decoded(image_data@)->0)),
        palette@.len() <= MAX_UNIQUE_COLORS,
{
    let img = decode(image_data).unwrap();
    unique_colors_of(&img)
}

/// Analyses an encoded image: its EXIF tags and its unique colours.
/// Metadata that cannot be read is reported in the tags.
pub fn analyze_image(image_data: &[u8]) -> (analysis: ImageAnalysis)
    requires
        decoded(image_data@) is Some,
    ensures
        analysis.exif_data.deep_view() == tag_pairs_of(image_data@),
        is_palette_of(analysis.unique_colors.deep_view(), image_pixels(decoded(image_data@)->0)),
        analysis.unique_colors@.len() <= MAX_UNIQUE_COLORS,
{
    let exif_data = parse_exif_data(image_data);
    let unique_colors = get_unique_colors(image_data);
    ImageAnalysis { exif_data, unique_colors }
}

/// Strips the alpha channel of an image when the format cannot carry one.
pub fn normalize_for(img: image::DynamicImage, format: OutputFormat) -> (out: image::DynamicImage)
    ensures
        out == normalized(img, format),
        !format.carries_alpha() ==> !image_has_alpha(out),
{
    if format.has_alpha_support() {
        img
    } else {
        to_rgb8(&img)
    }
}

/// Prepares a decoded image for encoding: corrects its orientation,
/// normalises it for the format, and resizes it to fill the box of the
/// given width and height. The aspect ratio of the box wins over that of
/// the image. An image without pixels gives nothing.
pub fn prepare_image(
    img: image::DynamicImage,
    orientation: u16,
    width: u32,
    height: u32,
    format: OutputFormat,
    filter: ResampleFilter,
) -> (out: Option<image::DynamicImage>)
    ensures
        out == prepared(img, orientation, width, height, format, filter),
        out matches Some(ready) ==> {
            &&& image_width(ready) <= width
            &&& image_height(ready) <= height
            &&& !format.carries_alpha() ==> !image_has_alpha(ready)
        },
{
    let upright = apply_orientation(img, orientation);
    let flat = normalize_for(upright, format);
    if is_empty(&flat) {
        None
    } else {
        Some(resize_to_fill(&flat, width, height, filter))
    }
}

/// Turns the outcome of the encoder into the outcome of the operation.
pub fn finish_encoding(written: Result<Vec<u8>, image::ImageError>) -> (out: Result<
    Vec<u8>,
    PipelineError,
>)
    ensures
        match written {
            Ok(bytes) => out == Ok::<Vec<u8>, PipelineError>(bytes),
            Err(_) => out == Err::<Vec<u8>, PipelineError>(PipelineError::Encode),
        },
{
    match written {
        Ok(bytes) => Ok(bytes),
        Err(_) => Err(PipelineError::Encode),
    }
}

/// Decodes an image, corrects its orientation, resizes it to fill the given
/// box and encodes it in the format that the tag selects, with the filter
/// that the filter tag selects. Fails with the encoding error when the
/// image has no pixels or the resized image cannot be encoded.
pub fn resize_image(image_data: &[u8], width: u32, height: u32, format: &str, filter: &str) -> (out:
    Result<Vec<u8>, PipelineError>)
    requires
        decoded(image_data@) is Some,
    ensures
        is_resize_outcome(
            out,
            decoded(image_data@)->0,
            orientation_of(image_data@),
            width,
            height,
            format_of(format@),
            filter_of(filter@),
        ),
{
    let img = decode(image_data).unwrap();
    let orientation = read_orientation(image_data);
    let target = resolve_format(format);
    let kernel = resolve_filter(filter);
    match prepare_image(img, orientation, width, height, target, kernel) {
        Some(ready) => finish_encoding(write_to(&ready, target)),
        None => Err(PipelineError::Encode),
    }
}

/// The unique colours of an encoded image, or the decoding error when the
/// bytes do not decode.
pub fn try_get_unique_colors(image_data: &[u8]) -> (out: Result<Vec<String>, PipelineError>)
    ensures
        match decoded(image_data@) {
            Some(img) => out matches Ok(palette) && is_palette_of(
                palette.deep_view(),
                image_pixels(img),
            ) && palette@.len() <= MAX_UNIQUE_COLORS,
            None => out == Err::<Vec<String>, PipelineError>(PipelineError::Decode),
        },
{
    if can_decode(image_data) {
        Ok(get_unique_colors(image_data))
    } else {
        Err(PipelineError::Decode)
    }
}

/// The analysis of an encoded image, or the decoding error when the bytes
/// do not decode.
pub fn try_analyze_image(image_data: &[u8]) -> (out: Result<ImageAnalysis, PipelineError>)
    ensures
        match decoded(image_data@) {
            Some(img) => out matches Ok(analysis) && analysis.exif_data.deep_view() == tag_pairs_of(
                image_data@,
            ) && is_palette_of(analysis.unique_colors.deep_view(), image_pixels(img))
                && analysis.unique_colors@.len() <= MAX_UNIQUE_COLORS,
            None => out matches Err(e) && e == PipelineError::Decode,
        },
{
    if can_decode(image_data) {
        Ok(analyze_image(image_data))
    } else {
        Err(PipelineError::Decode)
    }
}

/// The resized image, or the decoding error when the bytes do not decode,
/// or the encoding error as `resize_image` gives it.
pub fn try_resize_image(
    image_data: &[u8],
    width: u32,
    height: u32,
    format: &str,
    filter: &str,
) -> (out: Result<Vec<u8>, PipelineError>)
    ensures
        match decoded(image_data@) {
            Some(img) => is_resize_outcome(
                out,
                img,
                orientation_of(image_data@),
                width,
                height,
                format_of(format@),
                filter_of(filter@),
            ),
            None => out == Err::<Vec<u8>, PipelineError>(PipelineError::Decode),
        },
{
    if can_decode(image_data) {
        resize_image(image_data, width, height, format, filter)
    } else {
        Err(PipelineError::Decode)
    }
}

} // verus!
