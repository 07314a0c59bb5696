use vstd::prelude::*;
use crate::utils::Size2D;

verus! {

/// The surface's current extent uses this width when the window decides the size.
pub const EXTENT_SET_BY_WINDOW: u32 = 0xffff_ffff;

/// The swapchain extent: the surface's current extent, or the window's inner size
/// when the surface leaves it to the window.
pub fn choose_swapchain_extent(current_extent: Size2D, window_size: Size2D) -> (extent: Size2D)
    ensures
        extent == if current_extent.width != EXTENT_SET_BY_WINDOW {
            current_extent
        } else {
            window_size
        },
{
    if current_extent.width != EXTENT_SET_BY_WINDOW {
        current_extent
    } else {
        window_size
    }
}

/// The number of swapchain images to ask for: one more than the surface's minimum,
/// clamped to `[min_image_count, max_image_count]` (a maximum of 0 means no maximum).
pub open spec fn desired_image_count_spec(min_image_count: u32, max_image_count: u32) -> u32 {
    let upper = if max_image_count == 0 {
        u32::MAX
    } else {
        max_image_count
    };
    if min_image_count + 1 > upper {
        upper
    } else {
        (min_image_count + 1) as u32
    }
}

/// The number of swapchain images to ask for.
pub fn desired_image_count(min_image_count: u32, max_image_count: u32) -> (count: u32)
    requires
        min_image_count < u32::MAX,
        max_image_count == 0 || min_image_count <= max_image_count,
    ensures
        count == desired_image_count_spec(min_image_count, max_image_count),
        min_image_count <= count,
        max_image_count != 0 ==> count <= max_image_count,
{
    let wanted = min_image_count + 1;
    let upper = if max_image_count == 0 {
        u32::MAX
    } else {
        max_image_count
    };
    if wanted > upper {
        upper
    } else {
        wanted
    }
}

/// How presenting an image went.
#[derive(Clone, Copy, Debug, PartialEq, Eq, Structural)]
pub enum PresentResult {
    /// The image was queued; `suboptimal` when the swapchain no longer matches the surface exactly.
    Presented { suboptimal: bool },
    /// The swapchain is out of date with the surface.
    OutOfDate,
    /// Any other error.
    Failed,
}

/// The bookkeeping of a swapchain: its extent, whether it must be rebuilt before the
/// next frame, and how many images it has.
#[derive(Clone, Copy, Debug, PartialEq, Eq, Structural)]
pub struct SwapchainStatus {
    pub extent: Size2D,
    pub is_dirty: bool,
    pub image_count: usize,
}

impl SwapchainStatus {
    /// A swapchain that has no images yet and must be built before use.
    pub fn new(extent: Size2D) -> (status: SwapchainStatus)
        ensures
            status.extent == extent,
            status.is_dirty,
            status.image_count == 0,
    {
        SwapchainStatus { extent, is_dirty: true, image_count: 0 }
    }

    /// Takes the new size; returns whether the swapchain is to be rebuilt now. A zero
    /// size is recorded but postpones the rebuild (the dirty flag is left as it was).
    pub fn resize(&mut self, size: Size2D) -> (rebuild: bool)
        ensures
            final(self).extent == size,
            final(self).image_count == old(self).image_count,
            rebuild == (size.width != 0 && size.height != 0),
            rebuild ==> !final(self).is_dirty,
            !rebuild ==> final(self).is_dirty == old(self).is_dirty,
    {
        self.extent = size;
        if self.extent.width == 0 || self.extent.height == 0 {
            return false;
        }
        self.is_dirty = false;
        true
    }

    /// Records the images of a rebuilt swapchain; returns whether the per-image
    /// command buffers and synchronisation objects can be kept (same image count).
    pub fn record_images(&mut self, new_image_count: usize) -> (reuse: bool)
        ensures
            reuse == (old(self).image_count == new_image_count),
            final(self).image_count == new_image_count,
            final(self).extent == old(self).extent,
            final(self).is_dirty == old(self).is_dirty,
    {
        let reuse = self.image_count == new_image_count;
        self.image_count = new_image_count;
        reuse
    }

    /// Asks for a rebuild before the next frame (window resized, image acquisition failed).
    pub fn mark_dirty(&mut self)
        ensures
            *final(self) == (SwapchainStatus { is_dirty: true, ..*old(self) }),
    {
        self.is_dirty = true;
    }

    /// Records the outcome of acquiring an image: a suboptimal swapchain is rebuilt later.
    pub fn acquired(&mut self, is_suboptimal: bool)
        ensures
            *final(self) == (SwapchainStatus { is_dirty: old(self).is_dirty || is_suboptimal, ..*old(self) }),
    {
        if is_suboptimal {
            self.is_dirty = true;
        }
    }

    /// Records the outcome of presenting; returns whether presenting succeeded. A
    /// suboptimal or out-of-date swapchain is rebuilt later; other errors are reported.
    pub fn presented(&mut self, result: PresentResult) -> (ok: bool)
        ensures
            ok == (result != PresentResult::Failed),
            final(self).is_dirty == match result {
                PresentResult::Presented { suboptimal } => old(self).is_dirty || suboptimal,
                PresentResult::OutOfDate => true,
                PresentResult::Failed => old(self).is_dirty,
            },
            final(self).extent == old(self).extent,
            final(self).image_count == old(self).image_count,
    {
        match result {
            PresentResult::Presented { suboptimal } => {
                if suboptimal {
                    self.is_dirty = true;
                }
                true
            },
            PresentResult::OutOfDate => {
                self.is_dirty = true;
                true
            },
            PresentResult::Failed => false,
        }
    }
}

} // verus!
