//! The bookkeeping of a render loop with several frames in flight: which
//! frame is being recorded, which fence guards which swap-chain image, and
//! when the swap chain has to be made anew.

use vstd::prelude::*;
use crate::vulkan::swapchain::Extent2D;

verus! {

/// How many frames the host may have handed to the device at once.
pub const MAX_FRAMES_IN_FLIGHT: usize = 2;

/// The handle that stands for no fence.
pub const NULL_FENCE: u64 = 0;

/// What came of asking the swap chain for its next image.
#[derive(Clone, Copy, Debug, PartialEq, Eq, Structural)]
pub enum AcquireOutcome {
    /// The image with this index is ready to be drawn into.
    Acquired(u32),
    /// The swap chain no longer fits the surface.
    OutOfDate,
}

/// What came of handing an image over for presentation.
#[derive(Clone, Copy, Debug, PartialEq, Eq, Structural)]
pub enum PresentOutcome {
    /// The image was queued.
    Presented,
    /// The swap chain still works but no longer matches the surface.
    Suboptimal,
    /// The swap chain no longer fits the surface.
    OutOfDate,
}

/// What the host does once the swap chain has answered.
#[derive(Clone, Copy, Debug, PartialEq, Eq, Structural)]
pub enum FrameStep {
    /// Draw into image `image_index`, after waiting for the fence
    /// `wait_for` where an earlier frame still uses that image.
    Render { image_index: u32, wait_for: Option<u64> },
    /// Make the swap chain anew and give this frame up.
    Recreate,
}

/// What a window event asks of the program.
#[derive(Clone, Copy, Debug, PartialEq, Eq, Structural)]
pub enum WindowEvent {
    CloseRequested,
    Resized,
    RedrawRequested,
    Other,
}

/// What the program does about a window event.
#[derive(Clone, Copy, Debug, PartialEq, Eq, Structural)]
pub enum EventAction {
    /// Leave the event loop.
    Exit,
    /// Draw a frame, then ask for the next redraw.
    Draw,
    /// Nothing to do outside the bookkeeping.
    Nothing,
}

/// The state of the render loop.
pub struct FrameSync {
    /// One fence for each frame in flight, signalled when the device is
    /// done with that frame.
    pub in_flight_fences: Vec<u64>,
    /// For each swap-chain image, the fence of the frame that last drew
    /// into it, or `NULL_FENCE`.
    pub images_in_flight: Vec<u64>,
    /// The frame being recorded.
    pub current_frame: usize,
    /// Whether the window changed size since the swap chain was made.
    pub framebuffer_resized: bool,
}

/// `n` fences, none of them set.
pub open spec fn no_fences(n: nat) -> Seq<u64> {
    Seq::new(n, |i: int| NULL_FENCE)
}

/// The frame after `frame`, going round.
pub open spec fn next_frame(frame: usize) -> int {
    (frame + 1) % (MAX_FRAMES_IN_FLIGHT as int)
}

impl FrameSync {
    /// There is a fence for every frame in flight, and the current frame
    /// is one of them.
    pub open spec fn wf(&self) -> bool {
        &&& self.in_flight_fences@.len() == MAX_FRAMES_IN_FLIGHT
        &&& self.current_frame < MAX_FRAMES_IN_FLIGHT
    }

    /// The fence of the frame being recorded.
    pub open spec fn frame_fence(&self) -> u64 {
        self.in_flight_fences@[self.current_frame as int]
    }

    /// The state before the first frame, for a swap chain of `image_count`
    /// images.
    pub fn new(in_flight_fences: Vec<u64>, image_count: usize) -> (sync: Self)
        requires
            in_flight_fences@.len() == MAX_FRAMES_IN_FLIGHT,
        ensures
            sync.wf(),
            sync.in_flight_fences@ == in_flight_fences@,
            sync.images_in_flight@ == no_fences(image_count as nat),
            sync.current_frame == 0,
            !sync.framebuffer_resized,
    {
        let images_in_flight: Vec<u64> = vec![NULL_FENCE; image_count];
        assert(images_in_flight@ =~= no_fences(image_count as nat));
        FrameSync { in_flight_fences, images_in_flight, current_frame: 0, framebuffer_resized: false }
    }

    /// Takes in the swap chain's answer to a request for the next image.
    /// With an image in hand, the image is marked as used by the current
    /// frame, and the host is told which fence to wait for first, if any.
    /// With an outdated swap chain nothing changes and the swap chain is
    /// to be made anew.
    pub fn on_acquired(&mut self, outcome: AcquireOutcome) -> (step: FrameStep)
        requires
            old(self).wf(),
            outcome matches AcquireOutcome::Acquired(i) ==> i < old(self).images_in_flight@.len(),
        ensures
            final(self).wf(),
            final(self).in_flight_fences@ == old(self).in_flight_fences@,
            final(self).current_frame == old(self).current_frame,
            final(self).framebuffer_resized == old(self).framebuffer_resized,
            match outcome {
                AcquireOutcome::Acquired(i) => {
                    &&& step == FrameStep::Render {
                        image_index: i,
                        wait_for: if old(self).images_in_flight@[i as int] != NULL_FENCE {
                            Some(old(self).images_in_flight@[i as int])
                        } else {
                            None
                        },
                    }
                    &&& final(self).images_in_flight@ == old(self).images_in_flight@.update(
                        i as int,
                        old(self).frame_fence(),
                    )
                },
                AcquireOutcome::OutOfDate => {
                    &&& step == FrameStep::Recreate
                    &&& final(self).images_in_flight@ == old(self).images_in_flight@
                },
            },
    {
        match outcome {
            AcquireOutcome::Acquired(image_index) => {
                let user: u64 = self.images_in_flight[image_index as usize];
                let wait_for = if user != NULL_FENCE {
                    Some(user)
                } else {
                    None
                };
                let fence: u64 = self.in_flight_fences[self.current_frame];
                self.images_in_flight.set(image_index as usize, fence);
                FrameStep::Render { image_index, wait_for }
            },
            AcquireOutcome::OutOfDate => FrameStep::Recreate,
        }
    }

    /// Takes in the swap chain's answer to a presentation and moves on to
    /// the next frame. The swap chain is to be made anew where it is
    /// outdated or suboptimal, or where the window has changed size; that
    /// settles the change of size.
    pub fn on_presented(&mut self, outcome: PresentOutcome) -> (recreate: bool)
        requires
            old(self).wf(),
        ensures
            final(self).wf(),
            recreate == (outcome !is Presented || old(self).framebuffer_resized),
            !final(self).framebuffer_resized,
            final(self).current_frame == next_frame(old(self).current_frame),
            final(self).in_flight_fences@ == old(self).in_flight_fences@,
            final(self).images_in_flight@ == old(self).images_in_flight@,
    {
        let should_recreate = match outcome {
            PresentOutcome::Presented => self.framebuffer_resized,
            PresentOutcome::Suboptimal => true,
            PresentOutcome::OutOfDate => true,
        };
        if should_recreate {
            self.framebuffer_resized = false;
        }
        self.current_frame = (self.current_frame + 1) % MAX_FRAMES_IN_FLIGHT;
        should_recreate
    }

    /// Starts afresh with a new swap chain of `image_count` images: no
    /// image is in use by any frame.
    pub fn on_swapchain_recreated(&mut self, image_count: usize)
        ensures
            final(self).images_in_flight@ == no_fences(image_count as nat),
            final(self).in_flight_fences@ == old(self).in_flight_fences@,
            final(self).current_frame == old(self).current_frame,
            final(self).framebuffer_resized == old(self).framebuffer_resized,
    {
        self.images_in_flight = vec![NULL_FENCE; image_count];
        assert(self.images_in_flight@ =~= no_fences(image_count as nat));
    }

    /// Takes in a window event: a change of size is remembered until the
    /// next presentation, a request to close ends the loop, a request to
    /// redraw draws a frame.
    pub fn on_window_event(&mut self, event: WindowEvent) -> (action: EventAction)
        ensures
            final(self).in_flight_fences@ == old(self).in_flight_fences@,
            final(self).images_in_flight@ == old(self).images_in_flight@,
            final(self).current_frame == old(self).current_frame,
            final(self).framebuffer_resized == (old(self).framebuffer_resized || event
                == WindowEvent::Resized),
            action == match event {
                WindowEvent::CloseRequested => EventAction::Exit,
                WindowEvent::RedrawRequested => EventAction::Draw,
                WindowEvent::Resized => EventAction::Nothing,
                WindowEvent::Other => EventAction::Nothing,
            },
    {
        match event {
            WindowEvent::CloseRequested => EventAction::Exit,
            WindowEvent::Resized => {
                self.framebuffer_resized = true;
                EventAction::Nothing
            },
            WindowEvent::RedrawRequested => EventAction::Draw,
            WindowEvent::Other => EventAction::Nothing,
        }
    }
}

/// A window without area has no swap chain: making one is put off while
/// the window is minimised.
pub fn can_recreate_swapchain(window: Extent2D) -> (possible: bool)
    ensures
        possible == (window.width != 0 && window.height != 0),
{
    !(window.width == 0 || window.height == 0)
}

/// However the frames go, the host is back at the frame it started from
/// after as many presentations as there are frames in flight.
pub proof fn frames_go_round(frame: usize)
    requires
        frame < MAX_FRAMES_IN_FLIGHT,
    ensures
        next_frame(next_frame(frame) as usize) == frame,
        0 <= next_frame(frame) < MAX_FRAMES_IN_FLIGHT,
{
}

} // verus!
