//! What this library takes on trust: the calls into the `image` and `webp` crates.
//!
//! Every function here has a body that the verifier does not read and a contract that
//! it believes. The rest of the library is proved against these contracts.
//!
//! A result has a name here only where the call gives the same result for the same
//! arguments on every machine, and what it is takes pages to say: what bytes decode
//! to, what size an image is shrunk to, what bytes an encoding is. Whether a decoder
//! or an encoder succeeds is left open throughout: either may give up for want of
//! memory or of a thread. Nothing is claimed of the samples of a resampled image: they
//! come from sines whose last bit the platform decides.
//!
//! That a decoding depends on the bytes alone holds of JPEG only with the feature
//! `platform_independent` of `jpeg-decoder`; the manifest names that crate for it.

use crate::buffer::PixelBuffer;
use crate::buffer::Raster;
use crate::error::EncoderError;
use crate::paths::SourceFormat;
use vstd::prelude::*;
use webp::WebPEncodingError;

verus! {

/// `image::ImageError`, opaque.
#[verifier::external_type_specification]
#[verifier::external_body]
pub struct ExImageError(image::ImageError);

/// `webp::WebPEncodingError`, opaque.
#[verifier::external_type_specification]
#[verifier::external_body]
pub struct ExWebPEncodingError(webp::WebPEncodingError);

/// The image that `bytes` hold in `format`, as an RGBA raster, if they hold one.
pub uninterp spec fn decoded_rgba8(bytes: Seq<u8>, format: SourceFormat) -> Option<Raster>;

/// `image::load_from_memory_with_format`, followed by `DynamicImage::into_rgba8` on
/// what it decoded.
///
/// Claims that the size and the samples of what was decoded depend on the bytes and
/// the format alone. For JPEG this rests on the feature `platform_independent` of
/// `jpeg-decoder`, which the manifest switches on: without it the decoder picks its
/// inverse transform and its colour conversion by what the processor offers, and the
/// samples differ from one machine to the next. Nothing is claimed of a failure: it
/// comes on bytes that hold no image, and it can come on any bytes, since the JPEG
/// decoder starts threads and hands on the system's refusal of one. Nothing is
/// claimed of the size or of the number of samples either: the caller looks at them.
#[verifier::external_body]
pub(crate) fn load_rgba8(bytes: &[u8], format: SourceFormat) -> (r: Result<
    PixelBuffer,
    image::ImageError,
>)
    ensures
        r matches Ok(image) ==> decoded_rgba8(bytes@, format) == Some(image@),
{
    let kind = match format {
        SourceFormat::Jpeg => image::ImageFormat::Jpeg,
        SourceFormat::Png => image::ImageFormat::Png,
    };
    let decoded = image::load_from_memory_with_format(bytes, kind)?.into_rgba8();
    let (width, height) = decoded.dimensions();
    Ok(PixelBuffer { width, height, samples: decoded.into_raw() })
}

/// The `Display` text of an `image::ImageError`. Nothing is claimed of it.
#[verifier::external_body]
pub(crate) fn image_error_text(error: &image::ImageError) -> (text: String) {
    error.to_string()
}

/// The size to which a `width` by `height` image is scaled to fit the box `max_width`
/// by `max_height` in its own shape.
pub uninterp spec fn contained_size(width: u32, height: u32, max_width: u32, max_height: u32) -> (
    u32,
    u32,
);

/// The two rasters that resampling allocates are within what a vector can hold: one
/// of sixteen bytes a pixel, source width by new height, and the result, of four bytes
/// a pixel.
pub open spec fn resample_fits(width: u32, new_width: u32, new_height: u32) -> bool {
    16 * (width * new_height) <= isize::MAX && 4 * (new_width * new_height) <= isize::MAX
}

/// The raster of sixteen bytes a pixel that shrinking a `width` by `height` source
/// into a box `max_height` high allocates is within what a vector can hold. It has the
/// source's width and the result's height, which is neither above the source's nor
/// above the box's.
pub open spec fn shrink_fits(width: u32, height: u32, max_height: u32) -> bool {
    16 * (width * if height <= max_height {
        height
    } else {
        max_height
    }) <= isize::MAX
}

/// Each side of `new_width` by `new_height` is, give or take a pixel, that side of
/// `width` by `height` scaled by the largest factor at which both sides fit the box
/// `max_width` by `max_height`.
pub open spec fn is_uniform_fit(
    width: int,
    height: int,
    max_width: int,
    max_height: int,
    new_width: int,
    new_height: int,
) -> bool {
    if max_width * height <= max_height * width {
        &&& -1 <= new_width - max_width <= 1
        &&& -width <= new_height * width - height * max_width <= width
    } else {
        &&& -height <= new_width * height - width * max_height <= height
        &&& -1 <= new_height - max_height <= 1
    }
}

/// `image::DynamicImage::resize_exact` with `FilterType::Lanczos3`, on an RGBA raster.
///
/// Claims that the result has exactly the size asked for and four samples a pixel.
/// Nothing is claimed of the samples. Left out is what makes the call panic: a source
/// without pixels, and an allocation beyond what a vector can hold.
#[verifier::external_body]
pub(crate) fn resample_exact(image: &PixelBuffer, width: u32, height: u32) -> (out: PixelBuffer)
    requires
        image.wf(),
        width >= 1,
        height >= 1,
        resample_fits(image.width, width, height),
    ensures
        out.width == width,
        out.height == height,
        out.samples@.len() == 4 * (width * height),
{
    let source = image::RgbaImage::from_raw(image.width, image.height, image.samples.clone());
    let resized = image::DynamicImage::ImageRgba8(source.unwrap())
        .resize_exact(width, height, image::imageops::FilterType::Lanczos3)
        .into_rgba8();
    let (width, height) = resized.dimensions();
    PixelBuffer { width, height, samples: resized.into_raw() }
}

/// `image::DynamicImage::resize` with `FilterType::Lanczos3`, on an RGBA raster that is
/// wider or higher than the box.
///
/// Claims of the size that it picks: it depends on the source size and the box alone;
/// neither side is zero or exceeds the box; each side is the source's side times the
/// smaller of the two ratios box to source, rounded and then raised to one if it is
/// zero, so within a pixel of it; and the side whose ratio is the smaller comes out
/// as the box's side exactly. Claims that the result has four samples a pixel, and
/// nothing of what they are. Left out is what makes the call panic: a source without
/// pixels, and an allocation beyond what a vector can hold.
#[verifier::external_body]
pub(crate) fn resample_contained(image: &PixelBuffer, max_width: u32, max_height: u32) -> (out:
    PixelBuffer)
    requires
        image.wf(),
        max_width >= 1,
        max_height >= 1,
        image.width > max_width || image.height > max_height,
        shrink_fits(image.width, image.height, max_height),
    ensures
        (out.width, out.height) == contained_size(image.width, image.height, max_width, max_height),
        1 <= out.width <= max_width,
        1 <= out.height <= max_height,
        out.width == max_width || out.height == max_height,
        is_uniform_fit(
            image.width as int,
            image.height as int,
            max_width as int,
            max_height as int,
            out.width as int,
            out.height as int,
        ),
        out.samples@.len() == 4 * (out.width * out.height),
{
    let source = image::RgbaImage::from_raw(image.width, image.height, image.samples.clone());
    let resized = image::DynamicImage::ImageRgba8(source.unwrap())
        .resize(max_width, max_height, image::imageops::FilterType::Lanczos3)
        .into_rgba8();
    let (width, height) = resized.dimensions();
    PixelBuffer { width, height, samples: resized.into_raw() }
}

/// The largest width and the largest height that the encoder takes
/// (`WEBP_MAX_DIMENSION`).
pub const MAX_DIMENSION: u32 = 16383;

/// The lossy WebP encoding, at `quality`, of a `width` by `height` raster of RGB samples.
pub uninterp spec fn webp_from_rgb(samples: Seq<u8>, width: u32, height: u32, quality: u8) -> Seq<
    u8,
>;

/// The lossy WebP encoding, at `quality`, of a `width` by `height` raster of RGBA samples.
pub uninterp spec fn webp_from_rgba(samples: Seq<u8>, width: u32, height: u32, quality: u8) -> Seq<
    u8,
>;

/// `webp::Encoder::from_rgb` and `webp::Encoder::encode_simple`, lossy, with the
/// quality on the encoder's own scale.
///
/// Claims that the bytes of a successful encoding depend on the samples, the size and
/// the quality alone. Whether the encoder succeeds is left open. Left out is what the
/// encoder would read beyond the samples for, and the sizes that it refuses.
#[verifier::external_body]
pub(crate) fn encode_rgb(samples: &Vec<u8>, width: u32, height: u32, quality: u8) -> (r: Result<
    Vec<u8>,
    webp::WebPEncodingError,
>)
    requires
        1 <= width <= MAX_DIMENSION,
        1 <= height <= MAX_DIMENSION,
        samples@.len() == 3 * (width * height),
        quality <= 100,
    ensures
        r matches Ok(bytes) ==> bytes@ == webp_from_rgb(samples@, width, height, quality),
{
    let encoder = webp::Encoder::from_rgb(samples, width, height);
    match encoder.encode_simple(false, quality.into()) {
        Ok(memory) => Ok(memory.to_vec()),
        Err(error) => Err(error),
    }
}

/// `webp::Encoder::from_rgba` and `webp::Encoder::encode_simple`, lossy, with the
/// quality on the encoder's own scale.
///
/// Claims that the bytes of a successful encoding depend on the samples, the size and
/// the quality alone. Whether the encoder succeeds is left open. Left out is what the
/// encoder would read beyond the samples for, and the sizes that it refuses.
#[verifier::external_body]
pub(crate) fn encode_rgba(samples: &Vec<u8>, width: u32, height: u32, quality: u8) -> (r: Result<
    Vec<u8>,
    webp::WebPEncodingError,
>)
    requires
        1 <= width <= MAX_DIMENSION,
        1 <= height <= MAX_DIMENSION,
        samples@.len() == 4 * (width * height),
        quality <= 100,
    ensures
        r matches Ok(bytes) ==> bytes@ == webp_from_rgba(samples@, width, height, quality),
{
    let encoder = webp::Encoder::from_rgba(samples, width, height);
    match encoder.encode_simple(false, quality.into()) {
        Ok(memory) => Ok(memory.to_vec()),
        Err(error) => Err(error),
    }
}

/// Tells the variants of `webp::WebPEncodingError` apart, one for one. Nothing is
/// claimed of which one comes.
#[verifier::external_body]
pub(crate) fn encoder_error(error: WebPEncodingError) -> (kind: EncoderError) {
    match error {
        WebPEncodingError::VP8_ENC_OK => EncoderError::NoError,
        WebPEncodingError::VP8_ENC_ERROR_OUT_OF_MEMORY => EncoderError::OutOfMemory,
        WebPEncodingError::VP8_ENC_ERROR_BITSTREAM_OUT_OF_MEMORY => EncoderError::BitstreamOutOfMemory,
        WebPEncodingError::VP8_ENC_ERROR_NULL_PARAMETER => EncoderError::NullParameter,
        WebPEncodingError::VP8_ENC_ERROR_INVALID_CONFIGURATION => EncoderError::InvalidConfiguration,
        WebPEncodingError::VP8_ENC_ERROR_BAD_DIMENSION => EncoderError::BadDimension,
        WebPEncodingError::VP8_ENC_ERROR_PARTITION0_OVERFLOW => EncoderError::Partition0Overflow,
        WebPEncodingError::VP8_ENC_ERROR_PARTITION_OVERFLOW => EncoderError::PartitionOverflow,
        WebPEncodingError::VP8_ENC_ERROR_BAD_WRITE => EncoderError::BadWrite,
        WebPEncodingError::VP8_ENC_ERROR_FILE_TOO_BIG => EncoderError::FileTooBig,
        WebPEncodingError::VP8_ENC_ERROR_USER_ABORT => EncoderError::UserAbort,
        WebPEncodingError::VP8_ENC_ERROR_LAST => EncoderError::LastCode,
    }
}

} // verus!
