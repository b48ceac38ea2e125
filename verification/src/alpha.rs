//! Alpha policy: compositing a translucent pixel onto an opaque white background.

use crate::buffer::PixelBuffer;
use crate::buffer::Raster;
use crate::config::AlphaMode;
use vstd::prelude::*;

verus! {

/// The sample value of a fully opaque or fully white channel.
pub const OPAQUE: u8 = 255;

/// The exact blend `c * a/255 + 255 * (1 - a/255)` of a sample `c` under alpha `a`,
/// times 255.
pub open spec fn blend_numerator(channel: u8, alpha: u8) -> int {
    channel * alpha + 255 * (255 - alpha)
}

/// `v` is the integer nearest to `numerator / 255`: less than half away from it.
pub open spec fn is_nearest(v: int, numerator: int) -> bool {
    -255 < 2 * (255 * v - numerator) < 255
}

/// The colour sample that results from blending `channel` with weight `alpha / 255`
/// against white: the exact blend, rounded to the nearest integer.
pub open spec fn blend_on_white_spec(channel: u8, alpha: u8) -> int {
    (blend_numerator(channel, alpha) + 127) / 255
}

/// Blends one colour sample against white: the sample weighs `alpha / 255`, white the
/// rest, and the sum is rounded to the nearest integer.
pub fn blend_on_white(channel: u8, alpha: u8) -> (out: u8)
    ensures
        out == blend_on_white_spec(channel, alpha),
        is_nearest(out as int, blend_numerator(channel, alpha)),
        alpha == 0 ==> out == 255,
        alpha == 255 ==> out == channel,
{
    proof {
        lemma_blend_is_nearest(channel, alpha);
    }
    let c: u32 = channel as u32;
    let a: u32 = alpha as u32;
    assert(c * a <= 255 * 255) by (nonlinear_arith)
        requires
            c <= 255,
            a <= 255,
    ;
    let numerator: u32 = c * a + 255 * (255 - a);
    ((numerator + 127) / 255) as u8
}

/// The RGBA samples that result from flattening `rgba` onto white: every colour sample
/// is blended with its own pixel's alpha, and every alpha sample becomes opaque.
pub open spec fn flattened(rgba: Seq<u8>) -> Seq<u8> {
    Seq::new(
        rgba.len(),
        |k: int|
            if k % 4 == 3 {
                OPAQUE
            } else {
                blend_on_white_spec(rgba[k], rgba[k - k % 4 + 3]) as u8
            },
    )
}

/// `image` after the alpha policy: flattened onto white, or as it is.
pub open spec fn alpha_applied(image: Raster, alpha: AlphaMode) -> Raster {
    match alpha {
        AlphaMode::Preserve => image,
        AlphaMode::Flatten => Raster {
            width: image.width,
            height: image.height,
            samples: flattened(image.samples),
        },
    }
}

/// Composites every pixel of `image` onto an opaque white background.
///
/// The result has the size of `image`, whatever that is; each of its pixels depends
/// on the pixel of `image` at the same place and on nothing else.
pub fn replace_alpha_with_white(image: &PixelBuffer) -> (out: PixelBuffer)
    requires
        image@.is_complete(),
    ensures
        out@.is_complete(),
        image.wf() ==> out.wf(),
        out.width == image.width,
        out.height == image.height,
        out.samples@ == flattened(image.samples@),
{
    let total: usize = image.samples.len();
    let pixels: usize = total / 4;
    let mut samples: Vec<u8> = Vec::new();
    let mut i: usize = 0;
    while i < pixels
        invariant
            total == image.samples@.len(),
            total == 4 * pixels,
            i <= pixels,
            samples@.len() == 4 * i,
            forall|k: int| 0 <= k < 4 * i ==> samples@[k] == flattened(image.samples@)[k],
        decreases pixels - i,
    {
        let alpha: u8 = image.samples[4 * i + 3];
        samples.push(blend_on_white(image.samples[4 * i], alpha));
        samples.push(blend_on_white(image.samples[4 * i + 1], alpha));
        samples.push(blend_on_white(image.samples[4 * i + 2], alpha));
        samples.push(OPAQUE);
        i = i + 1;
    }
    PixelBuffer { width: image.width, height: image.height, samples }
}

/// Flattening leaves no transparency: every fourth sample of the result is opaque, and
/// each colour sample is the integer nearest to the exact blend of its source sample.
pub proof fn lemma_flattened_pixel(rgba: Seq<u8>, pixel: int, channel: int)
    requires
        rgba.len() % 4 == 0,
        0 <= pixel < rgba.len() / 4,
        0 <= channel < 3,
    ensures
        flattened(rgba).len() == rgba.len(),
        flattened(rgba)[4 * pixel + 3] == OPAQUE,
        is_nearest(
            flattened(rgba)[4 * pixel + channel] as int,
            blend_numerator(rgba[4 * pixel + channel], rgba[4 * pixel + 3]),
        ),
        rgba[4 * pixel + 3] == 0 ==> flattened(rgba)[4 * pixel + channel] == 255,
        rgba[4 * pixel + 3] == 255 ==> flattened(rgba)[4 * pixel + channel] == rgba[4 * pixel
            + channel],
{
    lemma_blend_is_nearest(rgba[4 * pixel + channel], rgba[4 * pixel + 3]);
}

/// The rounded blend is a sample value, the nearest one to the exact blend, white for a
/// transparent pixel and the colour itself for an opaque one.
pub proof fn lemma_blend_is_nearest(channel: u8, alpha: u8)
    ensures
        0 <= blend_on_white_spec(channel, alpha) <= 255,
        is_nearest(blend_on_white_spec(channel, alpha), blend_numerator(channel, alpha)),
        alpha == 0 ==> blend_on_white_spec(channel, alpha) == 255,
        alpha == 255 ==> blend_on_white_spec(channel, alpha) == channel,
{
    let n = blend_numerator(channel, alpha);
    assert(0 <= n <= 255 * 255) by (nonlinear_arith)
        requires
            n == channel * alpha + 255 * (255 - alpha),
            0 <= channel <= 255,
            0 <= alpha <= 255,
    ;
    assert(alpha == 255 ==> n == 255 * channel) by (nonlinear_arith)
        requires
            n == channel * alpha + 255 * (255 - alpha),
    ;
    assert(alpha == 0 ==> n == 255 * 255) by (nonlinear_arith)
        requires
            n == channel * alpha + 255 * (255 - alpha),
    ;
}

} // verus!
