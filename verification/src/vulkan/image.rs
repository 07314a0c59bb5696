use vstd::prelude::*;

verus! {

/// `VK_IMAGE_LAYOUT_DEPTH_STENCIL_ATTACHMENT_OPTIMAL`.
pub const IMAGE_LAYOUT_DEPTH_STENCIL_ATTACHMENT_OPTIMAL: i32 = 3;

/// `VK_IMAGE_ASPECT_COLOR_BIT`.
pub const IMAGE_ASPECT_COLOR: u32 = 1;

/// `VK_IMAGE_ASPECT_DEPTH_BIT`.
pub const IMAGE_ASPECT_DEPTH: u32 = 2;

/// The aspect a layout-transition barrier covers: the depth aspect when the image
/// moves to the depth-attachment layout, the colour aspect otherwise.
pub fn barrier_aspect_mask(new_layout: i32) -> (aspect: u32)
    ensures
        aspect == if new_layout == IMAGE_LAYOUT_DEPTH_STENCIL_ATTACHMENT_OPTIMAL {
            IMAGE_ASPECT_DEPTH
        } else {
            IMAGE_ASPECT_COLOR
        },
{
    if new_layout == IMAGE_LAYOUT_DEPTH_STENCIL_ATTACHMENT_OPTIMAL {
        IMAGE_ASPECT_DEPTH
    } else {
        IMAGE_ASPECT_COLOR
    }
}

} // verus!
