//! Per-eye swapchain bookkeeping: each eye owns an ordered ring of
//! presentable images sized to the runtime-recommended resolution. The ring
//! state enforces the protocol invariant that at most one image per eye is
//! acquired but not yet released, and that acquisition walks the ring in
//! order. Swapchains are created lazily on the first rendered frame and
//! never recreated: resolution is assumed stable for the process lifetime.

use vstd::prelude::*;

verus! {

/// A texture size in pixels.
#[derive(Clone, Copy, Debug, PartialEq, Eq, Structural)]
pub struct Extent2d {
    pub width: u32,
    pub height: u32,
}

/// What the runtime recommends for one view index.
#[derive(Clone, Copy, Debug, PartialEq, Eq, Structural)]
pub struct ViewConfig {
    pub recommended_width: u32,
    pub recommended_height: u32,
}

/// The texture size taken from one view configuration.
pub open spec fn spec_extent_of(v: ViewConfig) -> Extent2d {
    Extent2d { width: v.recommended_width, height: v.recommended_height }
}

/// The per-eye render resolutions from the runtime's view-configuration
/// list. View indices pair one-to-one with eyes: left = 0, right = 1. A list
/// with fewer than two views cannot drive a stereo session.
pub fn negotiate_resolutions(view_configs: &Vec<ViewConfig>) -> (r: Option<(Extent2d, Extent2d)>)
    ensures
        view_configs@.len() >= 2 ==> r == Some(
            (spec_extent_of(view_configs@[0]), spec_extent_of(view_configs@[1])),
        ),
        view_configs@.len() < 2 ==> r is None,
{
    if view_configs.len() < 2 {
        None
    } else {
        let left = view_configs[0];
        let right = view_configs[1];
        Some(
            (
                Extent2d { width: left.recommended_width, height: left.recommended_height },
                Extent2d { width: right.recommended_width, height: right.recommended_height },
            ),
        )
    }
}

/// One eye's ring of presentable images. `acquired` holds the index of the
/// image currently handed to the renderer, so at most one image per eye is
/// ever acquired but not released; `next_image` is where the ring continues.
#[derive(Clone, Copy, Debug)]
pub struct EyeSwapchain {
    pub image_count: usize,
    pub next_image: usize,
    pub acquired: Option<usize>,
}

impl EyeSwapchain {
    /// The ring is non-empty, its cursor is in range, and any acquired index
    /// names a real image.
    pub open spec fn wf(self) -> bool {
        &&& self.image_count >= 1
        &&& self.next_image < self.image_count
        &&& match self.acquired {
            Some(i) => i < self.image_count,
            None => true,
        }
    }

    /// A fresh ring of `image_count` images, none acquired.
    pub fn new(image_count: usize) -> (s: EyeSwapchain)
        requires
            image_count >= 1,
        ensures
            s.wf(),
            s.image_count == image_count,
            s.next_image == 0,
            s.acquired is None,
    {
        EyeSwapchain { image_count, next_image: 0, acquired: None }
    }

    /// Acquires the next image of the ring for rendering. Only legal while no
    /// image of this eye is outstanding; the returned index stays acquired
    /// until `release`.
    pub fn acquire(&mut self) -> (idx: usize)
        requires
            old(self).wf(),
            old(self).acquired is None,
        ensures
            final(self).wf(),
            idx == old(self).next_image,
            final(self).acquired == Some(idx),
            final(self).image_count == old(self).image_count,
            final(self).next_image == ((old(self).next_image + 1) % old(self).image_count as int),
    {
        let idx = self.next_image;
        self.acquired = Some(idx);
        self.next_image = (self.next_image + 1) % self.image_count;
        idx
    }

    /// Releases the acquired image back to the runtime for compositing. Only
    /// legal while an image is outstanding.
    pub fn release(&mut self)
        requires
            old(self).wf(),
            old(self).acquired is Some,
        ensures
            final(self).wf(),
            final(self).acquired is None,
            final(self).image_count == old(self).image_count,
            final(self).next_image == old(self).next_image,
    {
        self.acquired = None;
    }
}

/// The pair of eye swapchains and the resolutions they were created with.
#[derive(Clone, Copy, Debug)]
pub struct EyeSwapchains {
    pub left: EyeSwapchain,
    pub right: EyeSwapchain,
    pub left_resolution: Extent2d,
    pub right_resolution: Extent2d,
}

impl EyeSwapchains {
    /// Both rings are well-formed.
    pub open spec fn wf(self) -> bool {
        self.left.wf() && self.right.wf()
    }

    /// Fresh rings for both eyes, sized per eye, nothing acquired.
    pub fn new(
        left_resolution: Extent2d,
        right_resolution: Extent2d,
        image_count: usize,
    ) -> (s: EyeSwapchains)
        requires
            image_count >= 1,
        ensures
            s.wf(),
            s.left.acquired is None,
            s.right.acquired is None,
            s.left.image_count == image_count,
            s.right.image_count == image_count,
            s.left_resolution == left_resolution,
            s.right_resolution == right_resolution,
    {
        EyeSwapchains {
            left: EyeSwapchain::new(image_count),
            right: EyeSwapchain::new(image_count),
            left_resolution,
            right_resolution,
        }
    }
}

} // verus!
