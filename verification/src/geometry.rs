//! Geometry policy: whether a decoded image is resized, and to what size.

use crate::buffer::PixelBuffer;
use crate::buffer::Raster;
use crate::config::Config;
use crate::config::FitMode;
use crate::error::ConvertError;
use crate::trusted::contained_size;
use crate::trusted::is_uniform_fit;
use crate::trusted::resample_contained;
use crate::trusted::resample_exact;
use crate::trusted::resample_fits;
use crate::trusted::shrink_fits;
use vstd::prelude::*;

verus! {

/// What the geometry policy decides for one image.
#[derive(Clone, Copy, Debug, PartialEq, Eq, Structural)]
pub enum Transform {
    /// The image stays as it is.
    Keep,
    /// The image is resized to exactly the target size.
    Stretch,
    /// The image is shrunk, in its own shape, into the target box.
    Shrink,
}

/// The decision for a source of `width` by `height` under `fit` and the target box
/// `max_width` by `max_height`.
pub open spec fn decision(
    width: u32,
    height: u32,
    max_width: u32,
    max_height: u32,
    fit: FitMode,
) -> Transform {
    match fit {
        FitMode::Exact => if width != max_width || height != max_height {
            Transform::Stretch
        } else {
            Transform::Keep
        },
        FitMode::Contain => if width > max_width || height > max_height {
            Transform::Shrink
        } else {
            Transform::Keep
        },
    }
}

/// Decides whether and how a source of `width` by `height` is resized.
pub fn decide(width: u32, height: u32, config: &Config) -> (transform: Transform)
    ensures
        transform == decision(width, height, config.width, config.height, config.fit),
{
    match config.fit {
        FitMode::Exact => if width != config.width || height != config.height {
            Transform::Stretch
        } else {
            Transform::Keep
        },
        FitMode::Contain => if width > config.width || height > config.height {
            Transform::Shrink
        } else {
            Transform::Keep
        },
    }
}

/// The sides of `new_width` by `new_height` are in the proportion of `width` by
/// `height`, up to the rounding of one pixel on each side.
pub open spec fn keeps_shape(width: int, height: int, new_width: int, new_height: int) -> bool {
    -(width + height) <= new_width * height - new_height * width <= width + height
}

/// A size that fits the box and keeps the source's shape is no larger than a source
/// that exceeds the box, and its sides are in the source's proportion up to the
/// rounding of one pixel on each.
pub proof fn lemma_contained_keeps_shape(
    width: int,
    height: int,
    max_width: int,
    max_height: int,
    new_width: int,
    new_height: int,
)
    requires
        width >= 1,
        height >= 1,
        width > max_width || height > max_height,
        1 <= new_width <= max_width,
        1 <= new_height <= max_height,
        is_uniform_fit(width, height, max_width, max_height, new_width, new_height),
    ensures
        new_width <= width,
        new_height <= height,
        keeps_shape(width, height, new_width, new_height),
{
    if max_width * height <= max_height * width {
        assert(width > max_width) by (nonlinear_arith)
            requires
                max_width * height <= max_height * width,
                width > max_width || height > max_height,
                width >= 1,
                height >= 1,
                max_width >= 1,
        ;
        assert(new_height <= height) by (nonlinear_arith)
            requires
                new_height * width - height * max_width <= width,
                max_width < width,
                height >= 1,
                width >= 1,
        ;
        assert(-(width + height) <= new_width * height - new_height * width <= width + height)
            by (nonlinear_arith)
            requires
                -1 <= new_width - max_width <= 1,
                -width <= new_height * width - height * max_width <= width,
                height >= 1,
        ;
    } else {
        assert(height > max_height) by (nonlinear_arith)
            requires
                max_width * height > max_height * width,
                width > max_width || height > max_height,
                width >= 1,
                height >= 1,
                max_height >= 1,
        ;
        assert(new_width <= width) by (nonlinear_arith)
            requires
                new_width * height - width * max_height <= height,
                max_height < height,
                height >= 1,
                width >= 1,
        ;
        assert(-(width + height) <= new_width * height - new_height * width <= width + height)
            by (nonlinear_arith)
            requires
                -1 <= new_height - max_height <= 1,
                -height <= new_width * height - width * max_height <= height,
                width >= 1,
        ;
    }
}

/// Whether resampling a raster `width` wide to `new_width` by `new_height` stays
/// within what a vector can hold.
fn fits_memory(width: u32, new_width: u32, new_height: u32) -> (fits: bool)
    ensures
        fits == resample_fits(width, new_width, new_height),
{
    assert(width * new_height <= 0xffff_ffff * 0xffff_ffff && new_width * new_height <= 0xffff_ffff
        * 0xffff_ffff) by (nonlinear_arith)
        requires
            width <= 0xffff_ffff,
            new_width <= 0xffff_ffff,
            new_height <= 0xffff_ffff,
    ;
    let limit: u128 = isize::MAX as u128;
    let lattice: u128 = 16 * ((width as u128) * (new_height as u128));
    let raster: u128 = 4 * ((new_width as u128) * (new_height as u128));
    lattice <= limit && raster <= limit
}

/// Whether shrinking a `width` by `height` raster into a box `max_height` high stays
/// within what a vector can hold.
fn shrink_fits_memory(width: u32, height: u32, max_height: u32) -> (fits: bool)
    ensures
        fits == shrink_fits(width, height, max_height),
{
    let lattice_height: u32 = if height <= max_height {
        height
    } else {
        max_height
    };
    assert(width * lattice_height <= 0xffff_ffff * 0xffff_ffff) by (nonlinear_arith)
        requires
            width <= 0xffff_ffff,
            lattice_height <= 0xffff_ffff,
    ;
    16 * ((width as u128) * (lattice_height as u128)) <= isize::MAX as u128
}

/// Whether the geometry policy can be carried out on a source of `width` by `height`:
/// it leaves the image alone, or the resampling is within what a vector can hold.
pub open spec fn resize_is_possible(width: u32, height: u32, config: Config) -> bool {
    match decision(width, height, config.width, config.height, config.fit) {
        Transform::Keep => true,
        Transform::Stretch => resample_fits(width, config.width, config.height),
        Transform::Shrink => shrink_fits(width, height, config.height),
    }
}

/// The size of a `width` by `height` image after the geometry policy.
pub open spec fn resized_size(width: u32, height: u32, config: Config) -> (u32, u32) {
    match decision(width, height, config.width, config.height, config.fit) {
        Transform::Keep => (width, height),
        Transform::Stretch => (config.width, config.height),
        Transform::Shrink => contained_size(width, height, config.width, config.height),
    }
}

/// What the geometry policy promises of the size of `out`, its result for `source`.
/// An image that is left alone keeps its size. One that is stretched has exactly the
/// target size. One that is shrunk is within the target box and no larger than it
/// was, has one side that is the box's own, and is in the source's shape.
pub open spec fn is_fitted(source: Raster, out: Raster, config: Config) -> bool {
    match decision(source.width, source.height, config.width, config.height, config.fit) {
        Transform::Keep => out.width == source.width && out.height == source.height,
        Transform::Stretch => out.width == config.width && out.height == config.height,
        Transform::Shrink => {
            &&& 1 <= out.width <= config.width
            &&& 1 <= out.height <= config.height
            &&& out.width <= source.width
            &&& out.height <= source.height
            &&& out.width == config.width || out.height == config.height
            &&& is_uniform_fit(
                source.width as int,
                source.height as int,
                config.width as int,
                config.height as int,
                out.width as int,
                out.height as int,
            )
            &&& keeps_shape(
                source.width as int,
                source.height as int,
                out.width as int,
                out.height as int,
            )
        },
    }
}

/// `out` is a result of the geometry policy for `source`: a raster with pixels, of
/// the size that the policy promises, and `source` itself where the policy leaves the
/// image alone. What the samples of a resampled image are is the resampler's affair.
pub open spec fn is_resized(source: Raster, out: Raster, config: Config) -> bool {
    &&& out.wf()
    &&& is_fitted(source, out, config)
    &&& decision(source.width, source.height, config.width, config.height, config.fit)
        == Transform::Keep ==> out == source
}

/// What a fitted size means in each mode. Under [`FitMode::Exact`] it is exactly the
/// target size. Under [`FitMode::Contain`] it is within the target box, no larger than
/// the source and in the source's shape up to rounding; if the source exceeded the
/// box, one side is the box's own, and if it did not, the size is the source's.
pub proof fn lemma_fitted_by_mode(source: Raster, out: Raster, config: Config)
    requires
        is_fitted(source, out, config),
    ensures
        config.fit == FitMode::Exact ==> out.width == config.width && out.height == config.height,
        config.fit == FitMode::Contain ==> {
            &&& out.width <= config.width
            &&& out.height <= config.height
            &&& out.width <= source.width
            &&& out.height <= source.height
            &&& keeps_shape(
                source.width as int,
                source.height as int,
                out.width as int,
                out.height as int,
            )
            &&& (source.width > config.width || source.height > config.height) ==> (out.width
                == config.width || out.height == config.height)
            &&& (source.width <= config.width && source.height <= config.height) ==> (out.width
                == source.width && out.height == source.height)
        },
{
    assert(source.width * source.height - source.height * source.width == 0) by (nonlinear_arith);
}

/// Applies the geometry policy to `image`.
///
/// Under [`FitMode::Exact`] an image of another size than the target comes back at
/// exactly the target size, whatever its shape was. Under [`FitMode::Contain`] an
/// image that is wider or higher than the target box comes back shrunk to fit it:
/// within the box with one side the box's own, no larger than it was, and in its own
/// shape up to rounding. In both modes the Lanczos filter of window 3 resamples;
/// nothing is said of the samples that it gives. Any other image comes back
/// untouched. The one failure is a resampling that would not fit in memory.
pub fn resize_to_fit(image: PixelBuffer, config: &Config) -> (r: Result<PixelBuffer, ConvertError>)
    requires
        image.wf(),
        config.wf(),
    ensures
        r is Ok <==> resize_is_possible(image.width, image.height, *config),
        r is Err ==> r == Err::<PixelBuffer, ConvertError>(ConvertError::Resize),
        r matches Ok(out) ==> {
            &&& is_resized(image@, out@, *config)
            &&& (out.width, out.height) == resized_size(image.width, image.height, *config)
            &&& decision(image.width, image.height, config.width, config.height, config.fit)
                == Transform::Keep ==> out == image
        },
{
    match decide(image.width, image.height, config) {
        Transform::Keep => Ok(image),
        Transform::Stretch => {
            if !fits_memory(image.width, config.width, config.height) {
                return Err(ConvertError::Resize);
            }
            Ok(resample_exact(&image, config.width, config.height))
        },
        Transform::Shrink => {
            if !shrink_fits_memory(image.width, image.height, config.height) {
                return Err(ConvertError::Resize);
            }
            let out = resample_contained(&image, config.width, config.height);
            proof {
                lemma_contained_keeps_shape(
                    image.width as int,
                    image.height as int,
                    config.width as int,
                    config.height as int,
                    out.width as int,
                    out.height as int,
                );
            }
            Ok(out)
        },
    }
}

} // verus!
