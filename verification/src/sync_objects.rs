//! The semaphores and fences that pace frames.

use vstd::prelude::*;

verus! {

/// How many of each synchronisation object the renderer creates.
#[derive(Clone, Copy, Debug, PartialEq, Eq, Structural)]
pub struct SyncObjectCounts {
    pub present_complete_semaphores: usize,
    pub render_finished_semaphores: usize,
    pub in_flight_fences: usize,
}

/// One render-finished and one present-complete semaphore per swapchain
/// image, and one fence, created signalled, per frame in flight.
pub fn sync_object_counts(swapchain_images_count: usize, max_frames_in_flight_count: usize) -> (r:
    SyncObjectCounts)
    ensures
        r.present_complete_semaphores == swapchain_images_count,
        r.render_finished_semaphores == swapchain_images_count,
        r.in_flight_fences == max_frames_in_flight_count,
{
    SyncObjectCounts {
        present_complete_semaphores: swapchain_images_count,
        render_finished_semaphores: swapchain_images_count,
        in_flight_fences: max_frames_in_flight_count,
    }
}

/// The created synchronisation objects, as raw Vulkan handle values.
pub struct SyncObjects {
    pub present_complete_semaphores: Vec<u64>,
    pub render_finished_semaphores: Vec<u64>,
    pub in_flight_fences: Vec<u64>,
}

impl SyncObjects {
    /// Records the objects created for `counts`.
    pub fn new(
        counts: &SyncObjectCounts,
        present_complete_semaphores: Vec<u64>,
        render_finished_semaphores: Vec<u64>,
        in_flight_fences: Vec<u64>,
    ) -> (r: SyncObjects)
        requires
            present_complete_semaphores.len() == counts.present_complete_semaphores,
            render_finished_semaphores.len() == counts.render_finished_semaphores,
            in_flight_fences.len() == counts.in_flight_fences,
        ensures
            r.present_complete_semaphores@ == present_complete_semaphores@,
            r.render_finished_semaphores@ == render_finished_semaphores@,
            r.in_flight_fences@ == in_flight_fences@,
    {
        SyncObjects { present_complete_semaphores, render_finished_semaphores, in_flight_fences }
    }
}

} // verus!
