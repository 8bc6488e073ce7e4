//! The image codec: decoded images and the operations that the `image`
//! crate performs on them.
//!
//! A decoded image is opaque here. What the rest of the library reads of it
//! is its pixel grid; what the codec makes of it (another image, or bytes)
//! is named by a function of the image, without saying how it is computed.

use crate::formats::{OutputFormat, ResampleFilter};
use crate::grid::{PixelGrid, Rgba};
use vstd::prelude::*;

verus! {

/// A decoded image of the `image` crate. Its contents are not visible
/// here; what is known of it is said through the functions below.
#[verifier::external_type_specification]
#[verifier::external_body]
pub struct ExDynamicImage(image::DynamicImage);

/// The error of the `image` crate's decoders and encoders, carried and
/// never looked into.
#[verifier::external_type_specification]
#[verifier::external_body]
pub struct ExImageError(image::ImageError);

/// A file format that the `image` crate knows, carried from the guess to
/// the decoder.
#[verifier::external_type_specification]
#[verifier::external_body]
pub struct ExImageFormat(image::ImageFormat);

/// Width of an image, in pixels.
pub uninterp spec fn image_width(img: image::DynamicImage) -> nat;

/// Height of an image, in pixels.
pub uninterp spec fn image_height(img: image::DynamicImage) -> nat;

/// The pixels of an image as eight-bit red, green, blue and alpha, row by
/// row from the top and from left to right within a row.
pub uninterp spec fn image_pixels(img: image::DynamicImage) -> Seq<Rgba>;

/// Whether the pixel type of an image has an alpha channel.
pub uninterp spec fn image_has_alpha(img: image::DynamicImage) -> bool;

/// The file format that the leading bytes give away, if they match the
/// signature of a known format.
pub uninterp spec fn guessed_format(data: Seq<u8>) -> Option<image::ImageFormat>;

/// The image that a byte sequence decodes to when it is read as a file of
/// the given format, if it decodes.
pub uninterp spec fn decoded_as(data: Seq<u8>, format: image::ImageFormat) -> Option<
    image::DynamicImage,
>;

/// The mirror image of an image, left to right.
pub uninterp spec fn flipped_horizontally(img: image::DynamicImage) -> image::DynamicImage;

/// The mirror image of an image, top to bottom.
pub uninterp spec fn flipped_vertically(img: image::DynamicImage) -> image::DynamicImage;

/// An image turned a quarter turn clockwise.
pub uninterp spec fn rotated90(img: image::DynamicImage) -> image::DynamicImage;

/// An image turned a half turn.
pub uninterp spec fn rotated180(img: image::DynamicImage) -> image::DynamicImage;

/// An image turned a quarter turn counter-clockwise.
pub uninterp spec fn rotated270(img: image::DynamicImage) -> image::DynamicImage;

/// An image converted to eight-bit RGB, without an alpha channel.
pub uninterp spec fn without_alpha(img: image::DynamicImage) -> image::DynamicImage;

/// An image scaled to cover a box and cropped to it.
pub uninterp spec fn resized_to_fill(
    img: image::DynamicImage,
    width: u32,
    height: u32,
    filter: ResampleFilter,
) -> image::DynamicImage;

/// The bytes of an image encoded in a format, if it can be encoded.
pub uninterp spec fn encoding_of(img: image::DynamicImage, format: OutputFormat) -> Option<Seq<u8>>;

/// The image that a byte sequence decodes to, if it decodes: its format is
/// guessed from its leading bytes, and it is read as a file of that format.
pub open spec fn decoded(data: Seq<u8>) -> Option<image::DynamicImage> {
    match guessed_format(data) {
        Some(format) => decoded_as(data, format),
        None => None,
    }
}

/// An image without pixels: its width or its height is zero.
pub open spec fn is_empty_image(img: image::DynamicImage) -> bool {
    image_width(img) == 0 || image_height(img) == 0
}

/// The pixel grid of an image.
pub open spec fn image_grid(img: image::DynamicImage) -> PixelGrid {
    PixelGrid { width: image_width(img), height: image_height(img), pixels: image_pixels(img) }
}

/// `image::guess_format`: compares the leading bytes with the signatures of
/// the formats that the crate knows. The outcome depends on the bytes alone.
#[verifier::external_body]
pub(crate) fn guess_format(data: &[u8]) -> (r: Result<image::ImageFormat, image::ImageError>)
    ensures
        r.ok() == guessed_format(data@),
{
    image::guess_format(data)
}

/// `image::load_from_memory_with_format`: decodes the bytes with the
/// decoder of the given format. Whether and to what they decode depends on
/// the bytes and the format alone.
#[verifier::external_body]
pub(crate) fn load_from_memory_with_format(data: &[u8], format: image::ImageFormat) -> (r: Result<
    image::DynamicImage,
    image::ImageError,
>)
    ensures
        r.ok() == decoded_as(data@, format),
{
    image::load_from_memory_with_format(data, format)
}

/// `GenericImageView::dimensions` of a decoded image: its width and height.
/// An image holds one pixel for each position.
#[verifier::external_body]
pub(crate) fn dimensions(img: &image::DynamicImage) -> (size: (u32, u32))
    ensures
        size.0 == image_width(*img),
        size.1 == image_height(*img),
        image_pixels(*img).len() == size.0 * size.1,
{
    image::GenericImageView::dimensions(img)
}

/// `GenericImageView::pixels` of a decoded image: every pixel once, row by
/// row from the top and from left to right within a row. The iterator
/// reads out of bounds on an image that has rows but no columns.
#[verifier::external_body]
pub(crate) fn rgba_pixels(img: &image::DynamicImage) -> (pixels: Vec<Rgba>)
    requires
        image_width(*img) > 0,
    ensures
        pixels@ == image_pixels(*img),
{
    image::GenericImageView::pixels(img).map(|(_, _, p)| (p.0[0], p.0[1], p.0[2], p.0[3])).collect()
}

/// `DynamicImage::fliph`: a new image of the same size in which each row is
/// reversed.
#[verifier::external_body]
pub(crate) fn fliph(img: &image::DynamicImage) -> (r: image::DynamicImage)
    ensures
        r == flipped_horizontally(*img),
        image_grid(r) == image_grid(*img).flip_horizontal(),
{
    img.fliph()
}

/// `DynamicImage::flipv`: a new image of the same size in which the order
/// of the rows is reversed.
#[verifier::external_body]
pub(crate) fn flipv(img: &image::DynamicImage) -> (r: image::DynamicImage)
    ensures
        r == flipped_vertically(*img),
        image_grid(r) == image_grid(*img).flip_vertical(),
{
    img.flipv()
}

/// `DynamicImage::rotate90`: a new image, turned a quarter turn clockwise;
/// width and height change places.
#[verifier::external_body]
pub(crate) fn rotate90(img: &image::DynamicImage) -> (r: image::DynamicImage)
    ensures
        r == rotated90(*img),
        image_grid(r) == image_grid(*img).rotate90(),
{
    img.rotate90()
}

/// `DynamicImage::rotate180`: a new image of the same size, turned a half
/// turn.
#[verifier::external_body]
pub(crate) fn rotate180(img: &image::DynamicImage) -> (r: image::DynamicImage)
    ensures
        r == rotated180(*img),
        image_grid(r) == image_grid(*img).rotate180(),
{
    img.rotate180()
}

/// `DynamicImage::rotate270`: a new image, turned a quarter turn
/// counter-clockwise; width and height change places.
#[verifier::external_body]
pub(crate) fn rotate270(img: &image::DynamicImage) -> (r: image::DynamicImage)
    ensures
        r == rotated270(*img),
        image_grid(r) == image_grid(*img).rotate270(),
{
    img.rotate270()
}

/// `DynamicImage::to_rgb8`, wrapped again as a `DynamicImage`: the image
/// converted to eight-bit RGB, a pixel type without an alpha channel.
#[verifier::external_body]
pub(crate) fn to_rgb8(img: &image::DynamicImage) -> (r: image::DynamicImage)
    ensures
        r == without_alpha(*img),
        !image_has_alpha(r),
{
    image::DynamicImage::ImageRgb8(img.to_rgb8())
}

/// `DynamicImage::resize_to_fill`: the image scaled, keeping its aspect
/// ratio, until it covers the box, then cropped to fit within the box. The
/// pixel type stays what it was. That the box is filled exactly is not
/// claimed: the scaled size is computed in floating point. On an image
/// without pixels the scale has no value and the crop offset underflows.
#[verifier::external_body]
pub(crate) fn resize_to_fill(
    img: &image::DynamicImage,
    width: u32,
    height: u32,
    filter: ResampleFilter,
) -> (r: image::DynamicImage)
    requires
        !is_empty_image(*img),
    ensures
        r == resized_to_fill(*img, width, height, filter),
        image_width(r) <= width,
        image_height(r) <= height,
        image_has_alpha(r) == image_has_alpha(*img),
{
    let kernel = match filter {
        ResampleFilter::CatmullRom => image::imageops::FilterType::CatmullRom,
        ResampleFilter::Gaussian => image::imageops::FilterType::Gaussian,
        ResampleFilter::Lanczos3 => image::imageops::FilterType::Lanczos3,
        ResampleFilter::Nearest => image::imageops::FilterType::Nearest,
        ResampleFilter::Triangle => image::imageops::FilterType::Triangle,
    };
    img.resize_to_fill(width, height, kernel)
}

/// `DynamicImage::write_to` into a fresh buffer: the image encoded in the
/// given format, or the encoder's error. For every format but AVIF the
/// outcome depends on the image and the format alone; the AVIF encoder
/// splits its work by the number of threads at hand, so nothing is claimed
/// of what it returns.
#[verifier::external_body]
pub(crate) fn write_to(img: &image::DynamicImage, format: OutputFormat) -> (r: Result<
    Vec<u8>,
    image::ImageError,
>)
    ensures
        format != OutputFormat::Avif ==> match r {
            Ok(bytes) => encoding_of(*img, format) == Some(bytes@),
            Err(_) => encoding_of(*img, format) is None,
        },
{
    let target = match format {
        OutputFormat::Png => image::ImageFormat::Png,
        OutputFormat::WebP => image::ImageFormat::WebP,
        OutputFormat::Jpeg => image::ImageFormat::Jpeg,
        OutputFormat::Avif => image::ImageFormat::Avif,
        OutputFormat::Bmp => image::ImageFormat::Bmp,
        OutputFormat::Gif => image::ImageFormat::Gif,
        OutputFormat::Tiff => image::ImageFormat::Tiff,
        OutputFormat::Ico => image::ImageFormat::Ico,
    };
    let mut out: Vec<u8> = Vec::new();
    let written = img.write_to(&mut std::io::Cursor::new(&mut out), target);
    written.map(|_| out)
}

/// Decodes an encoded image: guesses its format from its leading bytes and
/// reads it as a file of that format.
pub fn decode(image_data: &[u8]) -> (img: Option<image::DynamicImage>)
    ensures
        img == decoded(image_data@),
{
    match guess_format(image_data) {
        Ok(format) => match load_from_memory_with_format(image_data, format) {
            Ok(img) => Some(img),
            Err(_) => None,
        },
        Err(_) => None,
    }
}

/// Tells whether the bytes decode to an image.
pub fn can_decode(image_data: &[u8]) -> (ok: bool)
    ensures
        ok == decoded(image_data@) is Some,
{
    decode(image_data).is_some()
}

/// Tells whether an image is without pixels.
pub fn is_empty(img: &image::DynamicImage) -> (empty: bool)
    ensures
        empty == is_empty_image(*img),
{
    let size = dimensions(img);
    size.0 == 0 || size.1 == 0
}

} // verus!
