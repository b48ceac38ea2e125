//! The settings of one run, fixed before the first file is touched.

use vstd::prelude::*;

verus! {

/// How a source is brought to the target size.
#[derive(Clone, Copy, Debug, PartialEq, Eq, Structural)]
pub enum FitMode {
    /// Resize to exactly the target width and height, whatever the source's shape.
    Exact,
    /// Shrink, keeping the shape, until the image fits the target box; never enlarge.
    Contain,
}

/// What becomes of transparency.
#[derive(Clone, Copy, Debug, PartialEq, Eq, Structural)]
pub enum AlphaMode {
    /// Composite every pixel onto white; the output has no alpha channel.
    Flatten,
    /// Keep every pixel's alpha; the output has an alpha channel.
    Preserve,
}

/// The settings shared, read-only, by the conversions of one run. Paths are sequences
/// of components.
#[derive(Debug)]
pub struct Config {
    pub input_root: Vec<String>,
    pub output_root: Vec<String>,
    pub width: u32,
    pub height: u32,
    pub fit: FitMode,
    pub alpha: AlphaMode,
}

impl Config {
    /// The target box has a positive width and height.
    pub open spec fn wf(&self) -> bool {
        self.width > 0 && self.height > 0
    }

    /// The settings for the given roots and target size. `contain` selects
    /// [`FitMode::Contain`] over [`FitMode::Exact`], `keep_alpha` selects
    /// [`AlphaMode::Preserve`] over [`AlphaMode::Flatten`]. There are none for a target
    /// without width or height.
    pub fn new(
        input_root: Vec<String>,
        output_root: Vec<String>,
        width: u32,
        height: u32,
        contain: bool,
        keep_alpha: bool,
    ) -> (config: Option<Config>)
        ensures
            config is Some <==> width > 0 && height > 0,
            config matches Some(c) ==> {
                &&& c.wf()
                &&& c.input_root == input_root
                &&& c.output_root == output_root
                &&& c.width == width
                &&& c.height == height
                &&& c.fit == (if contain {
                    FitMode::Contain
                } else {
                    FitMode::Exact
                })
                &&& c.alpha == (if keep_alpha {
                    AlphaMode::Preserve
                } else {
                    AlphaMode::Flatten
                })
            },
    {
        if width == 0 || height == 0 {
            return None;
        }
        let fit = if contain {
            FitMode::Contain
        } else {
            FitMode::Exact
        };
        let alpha = if keep_alpha {
            AlphaMode::Preserve
        } else {
            AlphaMode::Flatten
        };
        Some(Config { input_root, output_root, width, height, fit, alpha })
    }

    /// Whether the target box has a positive width and height.
    pub fn is_valid(&self) -> (valid: bool)
        ensures
            valid == self.wf(),
    {
        self.width > 0 && self.height > 0
    }
}

} // verus!
