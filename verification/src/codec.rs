//! Codec adapter: from source bytes to a raster, and from a raster to WebP bytes.

use crate::buffer::without_alpha;
use crate::buffer::PixelBuffer;
use crate::buffer::Raster;
use crate::config::AlphaMode;
use crate::error::ConvertError;
use crate::paths::SourceFormat;
use crate::trusted::decoded_rgba8;
use crate::trusted::encode_rgb;
use crate::trusted::encode_rgba;
use crate::trusted::encoder_error;
use crate::trusted::image_error_text;
use crate::trusted::load_rgba8;
use crate::trusted::webp_from_rgb;
use crate::trusted::webp_from_rgba;
use crate::trusted::MAX_DIMENSION;
use vstd::prelude::*;

verus! {

/// The quality of every encoding, on the encoder's scale of 0 to 100.
pub const QUALITY: u8 = 85;

/// What a decoder's outcome means for the conversion: a raster with at least one
/// pixel and four samples for each is the decoded image; any other raster is refused
/// with [`ConvertError::NoPixels`]; the decoder's refusal is a decode failure that
/// carries its reason.
pub fn accept_decoded(outcome: Result<PixelBuffer, image::ImageError>) -> (r: Result<
    PixelBuffer,
    ConvertError,
>)
    ensures
        match outcome {
            Ok(image) => if image.wf() {
                r == Ok::<PixelBuffer, ConvertError>(image)
            } else {
                r == Err::<PixelBuffer, ConvertError>(ConvertError::NoPixels)
            },
            Err(_) => r matches Err(e) && e is Decode,
        },
{
    match outcome {
        Ok(image) => if image.is_well_formed() {
            Ok(image)
        } else {
            Err(ConvertError::NoPixels)
        },
        Err(error) => Err(ConvertError::Decode(image_error_text(&error))),
    }
}

/// `bytes` hold, in `format`, an image with at least one pixel.
pub open spec fn decodes(bytes: Seq<u8>, format: SourceFormat) -> bool {
    decoded_rgba8(bytes, format) matches Some(image) && image.wf()
}

/// Decodes the bytes of a source file of the given format into an RGBA raster.
///
/// What comes back decoded is the image that the bytes hold, and it has at least one
/// pixel. An image without pixels is refused with [`ConvertError::NoPixels`], and
/// nothing else is. Where the decoder gives up, on bytes that are no image of that
/// format or for a reason of its own, the result is [`ConvertError::Decode`] with its
/// reason.
pub fn decode(bytes: &[u8], format: SourceFormat) -> (r: Result<PixelBuffer, ConvertError>)
    ensures
        r matches Ok(image) ==> image.wf() && decoded_rgba8(bytes@, format) == Some(image@),
        r is Ok ==> decodes(bytes@, format),
        r == Err::<PixelBuffer, ConvertError>(ConvertError::NoPixels) ==> (decoded_rgba8(
            bytes@,
            format,
        ) matches Some(image) && !image.wf()),
        r matches Err(e) ==> e is NoPixels || e is Decode,
{
    accept_decoded(load_rgba8(bytes, format))
}

/// The encoder takes a raster of this size: neither side is without pixels or longer
/// than `MAX_DIMENSION`.
pub open spec fn is_encodable(width: u32, height: u32) -> bool {
    1 <= width <= MAX_DIMENSION && 1 <= height <= MAX_DIMENSION
}

/// The WebP bytes of `image` under `alpha`, where the encoder gives any: all four
/// channels when alpha is preserved, the three colour channels when it is not.
pub open spec fn encoding_of(image: Raster, alpha: AlphaMode) -> Seq<u8> {
    match alpha {
        AlphaMode::Preserve => webp_from_rgba(image.samples, image.width, image.height, QUALITY),
        AlphaMode::Flatten => webp_from_rgb(
            without_alpha(image.samples),
            image.width,
            image.height,
            QUALITY,
        ),
    }
}

/// What an encoder's outcome means for the conversion: its bytes are the output, its
/// refusal is an encode failure that carries the encoder's reason.
pub fn accept_encoded(outcome: Result<Vec<u8>, webp::WebPEncodingError>) -> (r: Result<
    Vec<u8>,
    ConvertError,
>)
    ensures
        r is Ok <==> outcome is Ok,
        r matches Ok(bytes) ==> outcome matches Ok(encoded) && bytes == encoded,
        r matches Err(e) ==> e is Encode,
{
    match outcome {
        Ok(bytes) => Ok(bytes),
        Err(error) => Err(ConvertError::Encode(encoder_error(error))),
    }
}

/// Encodes `image` as lossy WebP at quality 85: with its alpha channel under
/// [`AlphaMode::Preserve`], as RGB alone under [`AlphaMode::Flatten`].
///
/// An image with a side of no pixels or of more than `MAX_DIMENSION` is refused with
/// [`ConvertError::Unencodable`], and no other is. Every other image goes to the
/// encoder: its bytes are the result, and where it gives up the result is
/// [`ConvertError::Encode`] with its reason.
pub fn encode(image: &PixelBuffer, alpha: AlphaMode) -> (r: Result<Vec<u8>, ConvertError>)
    requires
        image@.is_complete(),
    ensures
        r == Err::<Vec<u8>, ConvertError>(ConvertError::Unencodable) <==> !is_encodable(
            image.width,
            image.height,
        ),
        r matches Ok(bytes) ==> bytes@ == encoding_of(image@, alpha),
        r matches Err(e) ==> e is Unencodable || e is Encode,
{
    if image.width < 1 || image.width > MAX_DIMENSION || image.height < 1 || image.height
        > MAX_DIMENSION {
        return Err(ConvertError::Unencodable);
    }
    match alpha {
        AlphaMode::Preserve => accept_encoded(
            encode_rgba(&image.samples, image.width, image.height, QUALITY),
        ),
        AlphaMode::Flatten => {
            let rgb: Vec<u8> = image.rgb_samples();
            accept_encoded(encode_rgb(&rgb, image.width, image.height, QUALITY))
        },
    }
}

} // verus!
