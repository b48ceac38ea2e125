//! The decoded raster that every transform stage works on.

use vstd::prelude::*;

verus! {

/// A raster image as a value: `width * height` pixels in row-major order, each pixel
/// four 8-bit samples (red, green, blue, alpha), one after the other.
pub struct Raster {
    pub width: u32,
    pub height: u32,
    pub samples: Seq<u8>,
}

impl Raster {
    /// The raster holds exactly four samples for each of its pixels. It may hold no
    /// pixel at all.
    pub open spec fn is_complete(self) -> bool {
        self.samples.len() == 4 * (self.width * self.height)
    }

    /// The raster holds at least one pixel and exactly four samples for each.
    pub open spec fn wf(self) -> bool {
        &&& self.width >= 1
        &&& self.height >= 1
        &&& self.is_complete()
    }
}

/// A decoded raster image in memory, owned by the one conversion that works on it.
#[derive(Debug)]
pub struct PixelBuffer {
    pub width: u32,
    pub height: u32,
    pub samples: Vec<u8>,
}

impl View for PixelBuffer {
    type V = Raster;

    open spec fn view(&self) -> Raster {
        Raster { width: self.width, height: self.height, samples: self.samples@ }
    }
}

/// The samples of `rgba` without every fourth one: three per pixel.
pub open spec fn without_alpha(rgba: Seq<u8>) -> Seq<u8> {
    Seq::new((rgba.len() / 4 * 3) as nat, |k: int| rgba[k / 3 * 4 + k % 3])
}

impl PixelBuffer {
    /// The buffer holds at least one pixel and exactly four samples for each.
    pub open spec fn wf(&self) -> bool {
        self@.wf()
    }

    /// Whether the buffer holds at least one pixel and exactly four samples for each.
    pub fn is_well_formed(&self) -> (b: bool)
        ensures
            b == self.wf(),
    {
        assert(self.width * self.height <= 0xffff_ffff * 0xffff_ffff) by (nonlinear_arith)
            requires
                self.width <= 0xffff_ffff,
                self.height <= 0xffff_ffff,
        ;
        let expected: u128 = 4 * ((self.width as u128) * (self.height as u128));
        self.width >= 1 && self.height >= 1 && self.samples.len() as u128 == expected
    }

    /// Takes `samples` as a `width` by `height` raster, if they are one with at least
    /// one pixel.
    pub fn new(width: u32, height: u32, samples: Vec<u8>) -> (r: Option<PixelBuffer>)
        ensures
            r is Some <==> (Raster { width, height, samples: samples@ }).wf(),
            r matches Some(b) ==> b.width == width && b.height == height && b.samples == samples,
    {
        let buffer = PixelBuffer { width, height, samples };
        if buffer.is_well_formed() {
            Some(buffer)
        } else {
            None
        }
    }

    /// The colour samples alone, three per pixel, in pixel order.
    pub fn rgb_samples(&self) -> (rgb: Vec<u8>)
        requires
            self@.is_complete(),
        ensures
            rgb@ == without_alpha(self.samples@),
            rgb@.len() == 3 * (self.width * self.height),
    {
        let total: usize = self.samples.len();
        let pixels: usize = total / 4;
        let mut rgb: Vec<u8> = Vec::new();
        let mut i: usize = 0;
        while i < pixels
            invariant
                total == self.samples@.len(),
                total == 4 * pixels,
                i <= pixels,
                rgb@.len() == 3 * i,
                forall|k: int| 0 <= k < 3 * i ==> rgb@[k] == self.samples@[k / 3 * 4 + k % 3],
            decreases pixels - i,
        {
            rgb.push(self.samples[4 * i]);
            rgb.push(self.samples[4 * i + 1]);
            rgb.push(self.samples[4 * i + 2]);
            i = i + 1;
        }
        rgb
    }
}

} // verus!
