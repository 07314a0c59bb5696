use vstd::prelude::*;
use crate::utils::Size2D;
use crate::vulkan::swapchain::SwapchainStatus;

verus! {

/// The frame after `frame_index` among `count` frames in flight.
pub open spec fn next_frame(frame_index: int, count: int) -> int {
    (frame_index + 1) % count
}

/// The frame reached from `frame_index` after `steps` frames.
pub open spec fn frame_after(frame_index: int, count: int, steps: nat) -> int
    decreases steps,
{
    if steps == 0 {
        frame_index
    } else {
        next_frame(frame_after(frame_index, count, (steps - 1) as nat), count)
    }
}

/// Which of the frames in flight is being recorded.
pub struct FrameCounter {
    frame_index: usize,
    in_flight_frames_count: usize,
}

impl FrameCounter {
    pub closed spec fn index(&self) -> int {
        self.frame_index as int
    }

    pub closed spec fn count(&self) -> int {
        self.in_flight_frames_count as int
    }

    /// The index always names one of the frames in flight.
    pub open spec fn wf(&self) -> bool {
        0 <= self.index() < self.count()
    }

    /// Starts at the first of `in_flight_frames_count` frames.
    pub fn new(in_flight_frames_count: usize) -> (counter: FrameCounter)
        requires
            in_flight_frames_count > 0,
        ensures
            counter.wf(),
            counter.index() == 0,
            counter.count() == in_flight_frames_count,
    {
        FrameCounter { frame_index: 0, in_flight_frames_count }
    }

    /// The frame being recorded.
    pub fn frame_index(&self) -> (i: usize)
        ensures
            i == self.index(),
    {
        self.frame_index
    }

    /// Moves on to the next frame in flight, wrapping around after the last one.
    pub fn advance(&mut self)
        requires
            old(self).wf(),
        ensures
            final(self).wf(),
            final(self).count() == old(self).count(),
            final(self).index() == next_frame(old(self).index(), old(self).count()),
    {
        self.frame_index = (self.frame_index + 1) % self.in_flight_frames_count;
    }
}

/// After `steps` frames the counter is at `(start + steps) % count`.
pub proof fn lemma_frames_advance(start: int, count: int, steps: nat)
    requires
        0 <= start < count,
    ensures
        frame_after(start, count, steps) == (start + steps) % count,
    decreases steps,
{
    if steps > 0 {
        lemma_frames_advance(start, count, (steps - 1) as nat);
        vstd::arithmetic::div_mod::lemma_add_mod_noop_right(1, start + steps - 1, count);
    } else {
        vstd::arithmetic::div_mod::lemma_small_mod(start as nat, count as nat);
    }
}

/// The counter is back at its start after every `count` frames.
pub proof fn lemma_frames_cycle(start: int, count: int)
    requires
        0 <= start < count,
    ensures
        frame_after(start, count, count as nat) == start,
{
    lemma_frames_advance(start, count, count as nat);
    vstd::arithmetic::div_mod::lemma_mod_add_multiples_vanish(start, count);
    vstd::arithmetic::div_mod::lemma_small_mod(start as nat, count as nat);
}

/// What the renderer does at the start of a frame.
#[derive(Clone, Copy, Debug, PartialEq, Eq, Structural)]
pub struct FramePlan {
    /// Wait for the device to go idle (a rebuild was pending).
    pub wait_idle: bool,
    /// Rebuild the swapchain at the current window size.
    pub rebuild_swapchain: bool,
    /// Recreate the render targets at the new swapchain extent.
    pub resize_render_targets: bool,
    /// Go on to acquire an image and draw the frame.
    pub draw: bool,
}

/// Decides the start of a frame: a pending rebuild is carried out at `window_size`
/// (postponed while the window has a zero size), and nothing is drawn while the
/// swapchain extent is zero.
pub fn plan_frame(swapchain: &mut SwapchainStatus, window_size: Size2D) -> (plan: FramePlan)
    ensures
        plan.wait_idle == old(swapchain).is_dirty,
        old(swapchain).is_dirty ==> final(swapchain).extent == window_size,
        !old(swapchain).is_dirty ==> *final(swapchain) == *old(swapchain),
        final(swapchain).image_count == old(swapchain).image_count,
        plan.rebuild_swapchain == (old(swapchain).is_dirty && window_size.width != 0 && window_size.height
            != 0),
        plan.resize_render_targets == plan.rebuild_swapchain,
        plan.draw == (final(swapchain).extent.width != 0 && final(swapchain).extent.height != 0),
        final(swapchain).is_dirty == (old(swapchain).is_dirty && !plan.rebuild_swapchain),
{
    if swapchain.is_dirty {
        let rebuild = swapchain.resize(window_size);
        FramePlan {
            wait_idle: true,
            rebuild_swapchain: rebuild,
            resize_render_targets: rebuild,
            draw: rebuild,
        }
    } else {
        FramePlan {
            wait_idle: false,
            rebuild_swapchain: false,
            resize_render_targets: false,
            draw: swapchain.extent.is_drawable(),
        }
    }
}

} // verus!
