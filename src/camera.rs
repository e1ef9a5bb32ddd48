//! Render settings: the image size derived from a width and an aspect ratio,
//! the samples per pixel and the bounce budget.

use vstd::prelude::*;

verus! {

/// Width to height of the image, as a ratio of whole numbers (16:9).
#[derive(Clone, Copy, Debug, PartialEq, Eq, Structural)]
pub struct AspectRatio {
    pub width: u32,
    pub height: u32,
}

/// Why settings were rejected.
#[derive(Clone, Copy, Debug, PartialEq, Eq, Structural)]
pub enum SettingsError {
    /// One side of the aspect ratio is zero.
    DegenerateAspect,
    /// No samples per pixel: a pixel's average would divide by zero.
    NoSamples,
    /// The image height, or the pixel count, does not fit in `usize`.
    TooLarge,
}

/// The image height for a width: `width / aspect`, truncated.
pub open spec fn spec_image_height(image_width: nat, aspect: AspectRatio) -> nat {
    image_width * aspect.height as nat / aspect.width as nat
}

/// What `RenderSettings::new` gives.
pub open spec fn spec_settings(
    samples_per_pixel: nat,
    image_width: nat,
    aspect: AspectRatio,
) -> Result<nat, SettingsError> {
    if aspect.width == 0 || aspect.height == 0 {
        Err(SettingsError::DegenerateAspect)
    } else if samples_per_pixel == 0 {
        Err(SettingsError::NoSamples)
    } else if spec_image_height(image_width, aspect) > usize::MAX || image_width
        * spec_image_height(image_width, aspect) > usize::MAX {
        Err(SettingsError::TooLarge)
    } else {
        Ok(spec_image_height(image_width, aspect))
    }
}

/// Validated settings of one render.
pub struct RenderSettings {
    samples_per_pixel: usize,
    max_depth: u8,
    image_width: usize,
    image_height: usize,
}

impl RenderSettings {
    pub closed spec fn spec_samples_per_pixel(&self) -> nat {
        self.samples_per_pixel as nat
    }

    pub closed spec fn spec_max_depth(&self) -> nat {
        self.max_depth as nat
    }

    pub closed spec fn spec_image_width(&self) -> nat {
        self.image_width as nat
    }

    pub closed spec fn spec_image_height(&self) -> nat {
        self.image_height as nat
    }

    /// At least one sample per pixel, and the pixel count fits in `usize`.
    pub open spec fn wf(&self) -> bool {
        &&& self.spec_samples_per_pixel() > 0
        &&& self.spec_image_width() * self.spec_image_height() <= usize::MAX
    }

    /// Settings for `image_width` pixels across, the height derived from
    /// `aspect`; rejected as `spec_settings` says.
    pub fn new(samples_per_pixel: usize, max_depth: u8, image_width: usize, aspect: AspectRatio) -> (r:
        Result<RenderSettings, SettingsError>)
        ensures
            match (r, spec_settings(samples_per_pixel as nat, image_width as nat, aspect)) {
                (Ok(s), Ok(h)) => {
                    &&& s.wf()
                    &&& s.spec_samples_per_pixel() == samples_per_pixel
                    &&& s.spec_max_depth() == max_depth
                    &&& s.spec_image_width() == image_width
                    &&& s.spec_image_height() == h
                },
                (Err(e), Err(f)) => e == f,
                _ => false,
            },
    {
        if aspect.width == 0 || aspect.height == 0 {
            return Err(SettingsError::DegenerateAspect);
        }
        if samples_per_pixel == 0 {
            return Err(SettingsError::NoSamples);
        }
        proof {
            assert(image_width as u128 * aspect.height as u128 <= u128::MAX) by (nonlinear_arith)
                requires
                    image_width <= usize::MAX,
                    aspect.height <= u32::MAX,
            ;
        }
        let h: u128 = image_width as u128 * aspect.height as u128 / aspect.width as u128;
        if h > usize::MAX as u128 {
            return Err(SettingsError::TooLarge);
        }
        let image_height: usize = h as usize;
        match image_width.checked_mul(image_height) {
            None => Err(SettingsError::TooLarge),
            Some(_) => Ok(RenderSettings { samples_per_pixel, max_depth, image_width, image_height }),
        }
    }

    /// 500 samples per pixel, 50 bounces, 1200 pixels across at 16:9 (675 rows).
    pub fn standard() -> (r: RenderSettings)
        ensures
            r.wf(),
            r.spec_samples_per_pixel() == 500,
            r.spec_max_depth() == 50,
            r.spec_image_width() == 1200,
            r.spec_image_height() == 675,
    {
        RenderSettings { samples_per_pixel: 500, max_depth: 50, image_width: 1200, image_height: 675 }
    }

    pub fn samples_per_pixel(&self) -> (r: usize)
        ensures
            r == self.spec_samples_per_pixel(),
    {
        self.samples_per_pixel
    }

    pub fn max_depth(&self) -> (r: u8)
        ensures
            r == self.spec_max_depth(),
    {
        self.max_depth
    }

    pub fn image_width(&self) -> (r: usize)
        ensures
            r == self.spec_image_width(),
    {
        self.image_width
    }

    pub fn image_height(&self) -> (r: usize)
        ensures
            r == self.spec_image_height(),
    {
        self.image_height
    }
}

} // verus!
