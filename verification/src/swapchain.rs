//! The GL ES 3.0 swapchain. GL presents a window's default framebuffer, so the swapchain holds one
//! image and hands out image indices in turn, as if it had several.
use crate::sync::RafxSemaphoreGles2;
use crate::sync_gles3::{GlFinishCounter, RafxFenceGles3};
use crate::texture::RafxTextureGles3;
use crate::types::RafxResult;
use vstd::prelude::*;

verus! {

/// How many images the swapchain reports.
pub const SWAPCHAIN_IMAGE_COUNT: u32 = 3;

#[derive(Copy, Clone, Debug, PartialEq, Eq, Structural)]
pub enum RafxSwapchainColorSpace {
    Srgb,
    SrgbExtended,
    DisplayP3Extended,
}

#[derive(Copy, Clone, Debug, PartialEq, Eq, Structural)]
pub struct RafxSwapchainDef {
    pub width: u32,
    pub height: u32,
    pub enable_vsync: bool,
    pub color_space: RafxSwapchainColorSpace,
}

/// An acquired image and its index.
pub struct RafxSwapchainImage {
    pub texture: RafxTextureGles3,
    pub swapchain_image_index: u32,
}

pub struct RafxSwapchainGles3 {
    pub swapchain_def: RafxSwapchainDef,
    /// The index the next acquire hands out.
    pub next_swapchain_image_index: u32,
    pub swapchain_image: RafxTextureGles3,
}

/// The index handed out after `index`: the indices run through the image count and start over.
pub open spec fn spec_next_image_index(index: u32) -> u32 {
    if index + 1 >= SWAPCHAIN_IMAGE_COUNT {
        0
    } else {
        (index + 1) as u32
    }
}

/// Acquiring as many images as the swapchain has hands out every index once and comes back to
/// the first.
pub proof fn lemma_acquired_indices_cycle(index: u32)
    requires
        index < SWAPCHAIN_IMAGE_COUNT,
    ensures
        spec_next_image_index(spec_next_image_index(spec_next_image_index(index))) == index,
        spec_next_image_index(index) != index,
        spec_next_image_index(spec_next_image_index(index)) != index,
        spec_next_image_index(index) < SWAPCHAIN_IMAGE_COUNT,
{
}

impl RafxSwapchainGles3 {
    /// The index to hand out is one of the swapchain's.
    pub open spec fn wf(&self) -> bool {
        self.next_swapchain_image_index < SWAPCHAIN_IMAGE_COUNT
    }

    /// Makes a swapchain around the window's image. Only the sRGB color space is supported.
    pub fn new(swapchain_def: &RafxSwapchainDef, swapchain_image: RafxTextureGles3) -> (r:
        RafxResult<RafxSwapchainGles3>)
        requires
            swapchain_def.color_space == RafxSwapchainColorSpace::Srgb,
        ensures
            r matches Ok(s) && {
                &&& s.wf()
                &&& s.swapchain_def == *swapchain_def
                &&& s.next_swapchain_image_index == 0
                &&& s.swapchain_image == swapchain_image
            },
    {
        Ok(
            RafxSwapchainGles3 {
                swapchain_def: *swapchain_def,
                next_swapchain_image_index: 0,
                swapchain_image,
            },
        )
    }

    pub fn swapchain_def(&self) -> (r: &RafxSwapchainDef)
        ensures
            *r == self.swapchain_def,
    {
        &self.swapchain_def
    }

    pub fn image_count(&self) -> (r: usize)
        ensures
            r == SWAPCHAIN_IMAGE_COUNT,
    {
        SWAPCHAIN_IMAGE_COUNT as usize
    }

    pub fn color_space(&self) -> (r: RafxSwapchainColorSpace)
        ensures
            r == self.swapchain_def.color_space,
    {
        self.swapchain_def.color_space
    }

    /// Takes a new definition and the image made for it; the index to hand out is kept.
    pub fn rebuild(&mut self, swapchain_def: &RafxSwapchainDef, swapchain_image: RafxTextureGles3) -> (r:
        RafxResult<()>)
        ensures
            r is Ok,
            final(self).swapchain_def == *swapchain_def,
            final(self).swapchain_image == swapchain_image,
            final(self).next_swapchain_image_index == old(self).next_swapchain_image_index,
    {
        self.swapchain_def = *swapchain_def;
        self.swapchain_image = swapchain_image;
        Ok(())
    }

    /// Hands out the image with the next index, and moves the index on.
    pub fn acquire_next_image(&mut self) -> (r: RafxResult<RafxSwapchainImage>)
        requires
            old(self).wf(),
        ensures
            final(self).wf(),
            r matches Ok(image) && {
                &&& image.swapchain_image_index == old(self).next_swapchain_image_index
                &&& image.texture == old(self).swapchain_image
            },
            final(self).next_swapchain_image_index == spec_next_image_index(
                old(self).next_swapchain_image_index,
            ),
            final(self).swapchain_def == old(self).swapchain_def,
            final(self).swapchain_image == old(self).swapchain_image,
    {
        let swapchain_image_index = self.next_swapchain_image_index;
        self.next_swapchain_image_index = self.next_swapchain_image_index + 1;
        if self.next_swapchain_image_index >= SWAPCHAIN_IMAGE_COUNT {
            self.next_swapchain_image_index = 0;
        }
        Ok(RafxSwapchainImage { texture: self.swapchain_image, swapchain_image_index })
    }

    /// Acquires the next image; the fence is then submitted, remembering the device's finish
    /// count.
    pub fn acquire_next_image_fence(
        &mut self,
        fence: &mut RafxFenceGles3,
        device: &GlFinishCounter,
    ) -> (r: RafxResult<RafxSwapchainImage>)
        requires
            old(self).wf(),
        ensures
            final(self).wf(),
            final(fence).submitted,
            final(fence).gl_finish_call_count == device.count,
            r matches Ok(image) && {
                &&& image.swapchain_image_index == old(self).next_swapchain_image_index
                &&& image.texture == old(self).swapchain_image
            },
            final(self).next_swapchain_image_index == spec_next_image_index(
                old(self).next_swapchain_image_index,
            ),
            final(self).swapchain_def == old(self).swapchain_def,
            final(self).swapchain_image == old(self).swapchain_image,
    {
        fence.set_submitted(true, device);
        self.acquire_next_image()
    }

    /// Acquires the next image; the semaphore then has a signal available.
    pub fn acquire_next_image_semaphore(&mut self, semaphore: &mut RafxSemaphoreGles2) -> (r:
        RafxResult<RafxSwapchainImage>)
        requires
            old(self).wf(),
        ensures
            final(self).wf(),
            final(semaphore).signal_available,
            r matches Ok(image) && {
                &&& image.swapchain_image_index == old(self).next_swapchain_image_index
                &&& image.texture == old(self).swapchain_image
            },
            final(self).next_swapchain_image_index == spec_next_image_index(
                old(self).next_swapchain_image_index,
            ),
            final(self).swapchain_def == old(self).swapchain_def,
            final(self).swapchain_image == old(self).swapchain_image,
    {
        semaphore.set_signal_available(true);
        self.acquire_next_image()
    }
}

} // verus!
