//! Target-image bookkeeping.
//!
//! Each swapchain-equivalent image remembers which in-flight frame slot
//! last rendered into it. Before the recorder may touch an image again,
//! the surrounding layer must wait on that frame's fence — `next_image`
//! names the slot to wait for, then stamps the current frame onto the
//! image for the next cycle. Recreating the swapchain (resize, staleness)
//! builds a fresh set with no associations.
use vstd::prelude::*;

verus! {

/// One target image: its association with the frame slot that last used
/// it. The image, view and framebuffer themselves live with the GPU
/// objects in the surrounding layer, keyed by image index.
#[derive(Copy, Clone, Debug, PartialEq, Eq, Structural)]
pub struct SwapChainImage {
    /// The frame slot whose fence guards this image, if any frame used it
    pub in_flight: Option<usize>,
}

impl SwapChainImage {
    /// A fresh image no frame has used.
    pub fn new() -> (r: SwapChainImage)
        ensures
            r.in_flight is None,
    {
        SwapChainImage { in_flight: None }
    }
}

/// The set of target images, their shared extent, and the depth-stencil
/// attachment's layer count.
pub struct SwapchainImages {
    pub(crate) width: u32,
    pub(crate) height: u32,
    pub(crate) layers: u32,
    pub(crate) images: Vec<SwapChainImage>,
}

impl SwapchainImages {
    pub open(crate) spec fn n_images(self) -> int {
        self.images@.len() as int
    }

    pub open(crate) spec fn extent_spec(self) -> (u32, u32) {
        (self.width, self.height)
    }

    /// Array layers of the shared depth-stencil attachment: two when
    /// rendering stereo, one otherwise.
    pub open(crate) spec fn layers_spec(self) -> u32 {
        self.layers
    }

    pub open(crate) spec fn image_at(self, i: int) -> SwapChainImage {
        self.images@[i]
    }

    /// A fresh image set for the given extent: no image is associated with
    /// any frame yet.
    pub fn new(width: u32, height: u32, n_images: usize, vr: bool) -> (r: Self)
        ensures
            r.n_images() == n_images,
            r.extent_spec() == (width, height),
            r.layers_spec() == if vr { 2u32 } else { 1u32 },
            forall|i: int| 0 <= i < n_images ==> (#[trigger] r.image_at(i)).in_flight is None,
    {
        let mut images: Vec<SwapChainImage> = Vec::new();
        let mut i: usize = 0;
        while i < n_images
            invariant
                i <= n_images,
                images@.len() == i,
                forall|k: int| 0 <= k < i ==> (#[trigger] images@[k]).in_flight is None,
            decreases n_images - i,
        {
            images.push(SwapChainImage::new());
            i = i + 1;
        }
        SwapchainImages { width, height, layers: if vr { 2 } else { 1 }, images }
    }

    /// Claim the acquired image for the given frame slot. The answer names
    /// the frame whose fence must be waited on before recording into this
    /// image — the frame that used it last — or nothing if no frame ever
    /// did; afterwards the image is associated with the given frame.
    pub fn next_image(&mut self, image_index: u32, frame_slot: usize) -> (r: Option<usize>)
        requires
            image_index < old(self).n_images(),
        ensures
            r == old(self).image_at(image_index as int).in_flight,
            final(self).image_at(image_index as int).in_flight == Some(frame_slot),
            final(self).n_images() == old(self).n_images(),
            final(self).extent_spec() == old(self).extent_spec(),
            final(self).layers_spec() == old(self).layers_spec(),
            forall|i: int|
                0 <= i < old(self).n_images() && i != image_index ==> final(self).image_at(i)
                    == old(self).image_at(i),
    {
        let idx = image_index as usize;
        let previous = self.images[idx].in_flight;
        self.images[idx] = SwapChainImage { in_flight: Some(frame_slot) };
        previous
    }

    /// The target extent, for viewport and scissor commands.
    pub fn extent(&self) -> (r: (u32, u32))
        ensures
            r == self.extent_spec(),
    {
        (self.width, self.height)
    }

    /// How many target images exist.
    pub fn image_count(&self) -> (r: usize)
        ensures
            r == self.n_images(),
    {
        self.images.len()
    }
}

} // verus!
