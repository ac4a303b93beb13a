//! One slab: a loaded volume together with its view-independent derived
//! state — the axis-aware model matrix and the contrast (windowing)
//! parameters.  The viewer holds two, the intensity image and the optional
//! segmentation mask.  The GPU texture mirroring the volume's samples is
//! owned by the renderer and rebuilt whenever the volume is replaced.

use vstd::prelude::*;

verus! {

use crate::fixed::SCALE;
use crate::transform::Transform2D;
use crate::transform::identity_spec;
use crate::volume::Image3D;

/// Windowing defaults applied once, the first time a volume is loaded
/// into a slab: masks get a unit window centred on one half, intensity
/// images a clinical soft-tissue-like window.
pub const DEFAULT_MASK_WINDOW_WIDTH: i64 = 1_000;

pub const DEFAULT_MASK_WINDOW_LEVEL: i64 = 500;

pub const DEFAULT_IMAGE_WINDOW_WIDTH: i64 = 600_000;

pub const DEFAULT_IMAGE_WINDOW_LEVEL: i64 = 200_000;

/// The model matrix a slab must carry for a volume under a slicing axis:
/// the two axes orthogonal to `axis`, ordered descending by index, give
/// the horizontal and vertical spacing of the displayed slice, so the
/// unit quad is stretched to the slice's physical aspect ratio.  An
/// absent volume keeps the identity aspect.
pub open spec fn model_of(vol: Option<Image3D>, axis: int) -> Transform2D {
    match vol {
        Option::Some(v) => Transform2D {
            sx: if axis == 2 {
                v.spacing.1
            } else {
                v.spacing.2
            },
            sy: if axis == 0 {
                v.spacing.1
            } else {
                v.spacing.0
            },
            tx: 0,
            ty: 0,
        },
        Option::None => identity_spec(),
    }
}

/// The slab after a volume is installed under slicing axis `axis`: the
/// volume replaced wholesale, the model matrix recomputed, and the
/// windowing defaults applied exactly when the slab was empty.
pub open spec fn loaded_spec(s: Texture, image: Image3D, axis: int) -> Texture {
    Texture {
        image: Option::Some(image),
        model_matrix: model_of(Some(image), axis),
        window_width: if s.image is None {
            if image.is_mask {
                DEFAULT_MASK_WINDOW_WIDTH
            } else {
                DEFAULT_IMAGE_WINDOW_WIDTH
            }
        } else {
            s.window_width
        },
        window_level: if s.image is None {
            if image.is_mask {
                DEFAULT_MASK_WINDOW_LEVEL
            } else {
                DEFAULT_IMAGE_WINDOW_LEVEL
            }
        } else {
            s.window_level
        },
    }
}

/// One volume on the GPU, with its model matrix and windowing state.
#[derive(Clone, Copy, Debug)]
pub struct Texture {
    pub image: Option<Image3D>,
    pub model_matrix: Transform2D,
    pub window_width: i64,
    pub window_level: i64,
}

impl Texture {
    /// A slab before any load, as [`Texture::empty`] builds it.
    pub open spec fn empty_spec() -> Texture {
        Texture {
            image: Option::None,
            model_matrix: identity_spec(),
            window_width: SCALE,
            window_level: 0,
        }
    }

    /// The slab's volume, if any, is well formed.
    pub open spec fn wf(self) -> bool {
        match self.image {
            Option::Some(v) => v.wf(),
            Option::None => true,
        }
    }

    /// A slab with no volume: identity aspect, neutral window.
    pub fn empty() -> (r: Texture)
        ensures
            r == Texture::empty_spec(),
            r.wf(),
    {
        Texture {
            image: None,
            model_matrix: Transform2D::identity(),
            window_width: SCALE,
            window_level: 0,
        }
    }

    /// Recompute the model matrix for the current slicing axis.  An axis
    /// outside `{0, 1, 2}` is a caller bug, not user input, and is ruled
    /// out rather than clamped.
    pub fn set_model_matrix(&mut self, current_axis: u32)
        requires
            current_axis < 3,
        ensures
            final(self).image == old(self).image,
            final(self).window_width == old(self).window_width,
            final(self).window_level == old(self).window_level,
            final(self).model_matrix == model_of(old(self).image, current_axis as int),
    {
        let m: Transform2D = match &self.image {
            Some(v) => {
                let sx: i64 = if current_axis == 2 {
                    v.spacing.1
                } else {
                    v.spacing.2
                };
                let sy: i64 = if current_axis == 0 {
                    v.spacing.1
                } else {
                    v.spacing.0
                };
                Transform2D { sx, sy, tx: 0, ty: 0 }
            },
            None => Transform2D::identity(),
        };
        self.model_matrix = m;
    }

    /// Install a volume: set the windowing defaults if and only if the
    /// slab was empty (a mask and an intensity image get different
    /// defaults), replace the volume, and recompute the model matrix.
    pub fn set_image(&mut self, image: Image3D, current_axis: u32)
        requires
            old(self).wf(),
            image.wf(),
            current_axis < 3,
        ensures
            *final(self) == loaded_spec(*old(self), image, current_axis as int),
            final(self).image == Some(image),
            final(self).model_matrix == model_of(Some(image), current_axis as int),
            old(self).image is None && image.is_mask ==> final(self).window_width
                == DEFAULT_MASK_WINDOW_WIDTH && final(self).window_level
                == DEFAULT_MASK_WINDOW_LEVEL,
            old(self).image is None && !image.is_mask ==> final(self).window_width
                == DEFAULT_IMAGE_WINDOW_WIDTH && final(self).window_level
                == DEFAULT_IMAGE_WINDOW_LEVEL,
            old(self).image is Some ==> final(self).window_width == old(self).window_width
                && final(self).window_level == old(self).window_level,
            final(self).wf(),
    {
        if self.image.is_none() {
            if image.is_mask {
                self.window_width = DEFAULT_MASK_WINDOW_WIDTH;
                self.window_level = DEFAULT_MASK_WINDOW_LEVEL;
            } else {
                self.window_width = DEFAULT_IMAGE_WINDOW_WIDTH;
                self.window_level = DEFAULT_IMAGE_WINDOW_LEVEL;
            }
        }
        self.image = Some(image);
        self.set_model_matrix(current_axis);
    }
}

} // verus!
