//! The frame loop: a fixed ring of frame slots driving
//! acquire -> record -> submit -> present against a presentable-image set,
//! plus resize handling.
//!
//! Each pass over a slot runs through the phases Idle -> Acquiring ->
//! Recording -> Submitted -> Idle on the CPU side; the GPU side of a pass is
//! tracked by the slot's submission and presentation fences, which must both
//! be signaled before the slot is taken through another pass. The loop never
//! blocks: when nothing is ready it reports so and the caller re-polls on its
//! own schedule.

use vstd::prelude::*;

use crate::device::Device;
use crate::device::SemaphoreSignal;

verus! {

/// How many frame slots rotate through the loop.
pub const FRAMES_IN_FLIGHT_COUNT: usize = 2;

/// The pipeline stage that waits on the image-acquired semaphore:
/// color-attachment output, where the acquired image is first written.
pub const COLOR_ATTACHMENT_OUTPUT_STAGE: u64 = 0x400;

/// The pipeline stage mask signalling the render-finished semaphore: all
/// graphics stages.
pub const ALL_GRAPHICS_STAGE: u64 = 0x8000;

/// One frame slot's pre-allocated per-frame objects, by handle. None of them
/// is recreated on resize.
#[derive(Clone, Copy, Debug, PartialEq, Eq, Structural)]
pub struct FrameSlot {
    pub command_buffer: u64,
    pub acquired_image_semaphore: u64,
    pub render_finished_semaphore: u64,
    pub render_finished_fence: u64,
    pub finished_presenting_fence: u64,
}

/// The surface's reported drawable-extent bounds, from the capability query.
#[derive(Clone, Copy, Debug, PartialEq, Eq, Structural)]
pub struct SurfaceCapabilities {
    pub min_width: u32,
    pub min_height: u32,
    pub max_width: u32,
    pub max_height: u32,
}

impl SurfaceCapabilities {
    /// The reported bounds are an interval in each dimension.
    pub open spec fn wf(&self) -> bool {
        self.min_width <= self.max_width && self.min_height <= self.max_height
    }
}

/// Where the loop stands within the current pass over a slot.
#[derive(Clone, Copy, Debug, PartialEq, Eq, Structural)]
pub enum FramePhase {
    /// Between frames; the next pass starts by polling the current slot.
    Idle,
    /// The slot's fences were signaled; an image acquisition is under way.
    Acquiring,
    /// An image was acquired and the slot's command buffer is being recorded.
    Recording { slot: usize, image_index: usize, suboptimal: bool },
    /// The slot's work was submitted; presentation is under way.
    Submitted { slot: usize, image_index: usize, suboptimal: bool },
}

/// What the image acquisition reported.
#[derive(Clone, Copy, Debug, PartialEq, Eq, Structural)]
pub enum AcquireOutcome {
    /// An image is ready, with the presentation engine's suboptimal flag.
    Acquired { image_index: usize, suboptimal: bool },
    /// No image became ready within a zero timeout.
    NotReady,
    /// The surface was reported stale.
    OutOfDate,
}

/// What the presentation call reported.
#[derive(Clone, Copy, Debug, PartialEq, Eq, Structural)]
pub enum PresentOutcome {
    /// The frame was queued for presentation, with the suboptimal flag.
    Presented { suboptimal: bool },
    /// The surface was reported stale; the frame itself was rendered.
    OutOfDate,
}

/// How a frame attempt ended, the loop's caller-visible result.
#[derive(Clone, Copy, Debug, PartialEq, Eq, Structural)]
pub enum RenderResult {
    /// Nothing was ready; retry is free of cost and left no state behind.
    NotReady,
    /// The surface is stale; the caller must resize before the next frame.
    OutOfDate,
    /// The frame was presented but recreation is recommended.
    Suboptimal,
    /// The frame was presented.
    Success,
}

/// The decision after an acquisition attempt: begin recording on a slot, or
/// give up on this frame.
#[derive(Clone, Copy, Debug, PartialEq, Eq, Structural)]
pub enum AcquireStep {
    /// Record into `slot`'s command buffer, targeting `image_index`.
    Begin { slot: usize, image_index: usize },
    /// The frame is abandoned with this result; no slot was consumed.
    Bail { result: RenderResult },
}

/// The extra semaphore operations a render callback may ask to merge into
/// the frame's submission.
#[derive(Clone, Copy, Debug, PartialEq, Eq, Structural)]
pub struct RenderSync {
    pub wait_semaphore_info: Option<SemaphoreSignal>,
    pub signal_semaphore_info: Option<SemaphoreSignal>,
}

/// Everything a frame submission carries: the slot's command buffer, the
/// merged wait and signal sets, the slot's submission fence, and the
/// timeline value the submission signals on completion.
#[derive(Clone, Debug, PartialEq, Eq)]
pub struct SubmitPlan {
    pub command_buffer: u64,
    pub wait_semaphore_infos: Vec<SemaphoreSignal>,
    pub signal_semaphore_infos: Vec<SemaphoreSignal>,
    pub submission_fence: u64,
    pub timeline_value: u64,
}

/// Everything the presentation call carries: the semaphore it waits on, the
/// per-frame presentation-completion fence, and the image presented.
#[derive(Clone, Copy, Debug, PartialEq, Eq, Structural)]
pub struct PresentPlan {
    pub wait_semaphore: u64,
    pub presentation_fence: u64,
    pub image_index: usize,
}

/// The frame loop's full state, as specifications see it.
pub struct SwapchainView {
    pub width: u32,
    pub height: u32,
    pub recreation_count: u64,
    pub frame_counter: usize,
    pub slots: Seq<FrameSlot>,
    pub phase: FramePhase,
}

/// The frame loop's state: the current extent of the presentable-image set,
/// how many times that set has been recreated, the rotating slot ring with
/// the index the next frame uses, and the phase of the pass under way.
pub struct Swapchain {
    width: u32,
    height: u32,
    recreation_count: u64,
    frame_counter: usize,
    slots: Vec<FrameSlot>,
    phase: FramePhase,
}

impl View for Swapchain {
    type V = SwapchainView;

    closed spec fn view(&self) -> SwapchainView {
        SwapchainView {
            width: self.width,
            height: self.height,
            recreation_count: self.recreation_count,
            frame_counter: self.frame_counter,
            slots: self.slots@,
            phase: self.phase,
        }
    }
}

/// A phase that names a slot names one that exists.
pub open spec fn phase_wf(v: SwapchainView) -> bool {
    match v.phase {
        FramePhase::Idle => true,
        FramePhase::Acquiring => true,
        FramePhase::Recording { slot, .. } => slot < FRAMES_IN_FLIGHT_COUNT,
        FramePhase::Submitted { slot, .. } => slot < FRAMES_IN_FLIGHT_COUNT,
    }
}

/// The parts of the state a frame pass never touches: the extent, the
/// recreation count, and the slot ring.
pub open spec fn same_surface(a: SwapchainView, b: SwapchainView) -> bool {
    &&& a.width == b.width
    &&& a.height == b.height
    &&& a.recreation_count == b.recreation_count
    &&& a.slots == b.slots
}

/// A requested extent `v` clamped to the surface-reported interval.
pub open spec fn clamp_extent(v: u32, lo: u32, hi: u32) -> u32 {
    if v < lo {
        lo
    } else if v > hi {
        hi
    } else {
        v
    }
}

/// A resize request that changes nothing: a zero extent, or the extent the
/// presentable-image set already has.
pub open spec fn resize_is_noop(v: SwapchainView, width: u32, height: u32) -> bool {
    width == 0 || height == 0 || (width == v.width && height == v.height)
}

/// What a resize request does to the state: nothing for a no-op request;
/// otherwise the presentable-image set is recreated once, at the requested
/// extent clamped to the surface's reported bounds, and the slot ring is
/// kept untouched.
pub open spec fn resize_view(
    v: SwapchainView,
    width: u32,
    height: u32,
    capabilities: SurfaceCapabilities,
) -> SwapchainView {
    if resize_is_noop(v, width, height) {
        v
    } else {
        SwapchainView {
            width: clamp_extent(width, capabilities.min_width, capabilities.max_width),
            height: clamp_extent(height, capabilities.min_height, capabilities.max_height),
            recreation_count: (v.recreation_count + 1) as u64,
            frame_counter: v.frame_counter,
            slots: v.slots,
            phase: v.phase,
        }
    }
}

/// What polling the current slot's fences does to the state: nothing unless
/// both fences were signaled, in which case an acquisition begins.
pub open spec fn poll_view(v: SwapchainView, submission_done: bool, presentation_done: bool)
    -> SwapchainView {
    if submission_done && presentation_done {
        SwapchainView { phase: FramePhase::Acquiring, ..v }
    } else {
        v
    }
}

impl Swapchain {
    /// Well-formedness: the ring holds exactly the fixed number of slots,
    /// the rotating index stays inside it, and so does any slot the current
    /// phase names.
    pub open spec fn wf(&self) -> bool {
        &&& self@.slots.len() == FRAMES_IN_FLIGHT_COUNT
        &&& self@.frame_counter < FRAMES_IN_FLIGHT_COUNT
        &&& phase_wf(self@)
    }

    /// A fresh frame loop over pre-allocated slots: the extent starts at the
    /// surface's minimum, the ring at slot zero, between frames.
    pub fn new(capabilities: &SurfaceCapabilities, slots: Vec<FrameSlot>) -> (s: Swapchain)
        requires
            capabilities.wf(),
            slots@.len() == FRAMES_IN_FLIGHT_COUNT,
        ensures
            s.wf(),
            s@.width == capabilities.min_width,
            s@.height == capabilities.min_height,
            s@.recreation_count == 0,
            s@.frame_counter == 0,
            s@.slots == slots@,
            s@.phase is Idle,
    {
        Swapchain {
            width: capabilities.min_width,
            height: capabilities.min_height,
            recreation_count: 0,
            frame_counter: 0,
            slots,
            phase: FramePhase::Idle,
        }
    }

    /// The current width of the presentable-image set.
    pub fn width(&self) -> (w: u32)
        ensures
            w == self@.width,
    {
        self.width
    }

    /// The current height of the presentable-image set.
    pub fn height(&self) -> (h: u32)
        ensures
            h == self@.height,
    {
        self.height
    }

    /// How many times the presentable-image set has been recreated.
    pub fn recreation_count(&self) -> (n: u64)
        ensures
            n == self@.recreation_count,
    {
        self.recreation_count
    }

    /// The slot the next frame pass uses.
    pub fn current_frame(&self) -> (i: usize)
        ensures
            i == self@.frame_counter,
    {
        self.frame_counter
    }

    /// The slot at `index` in the ring.
    pub fn slot(&self, index: usize) -> (s: &FrameSlot)
        requires
            self.wf(),
            index < FRAMES_IN_FLIGHT_COUNT,
        ensures
            *s == self@.slots[index as int],
    {
        &self.slots[index]
    }

    /// Handles a resize request. A zero or unchanged requested extent is a
    /// no-op and the state is left exactly as it was. Otherwise the request
    /// is clamped to the surface's reported bounds and the presentable-image
    /// set must be recreated at the clamped extent, which the `true` result
    /// tells the caller: wait out every slot's fences, then replace the
    /// image set and its views. The frame slots themselves are reused
    /// untouched, and the ring keeps its position.
    pub fn resize(
        &mut self,
        width: u32,
        height: u32,
        capabilities: &SurfaceCapabilities,
    ) -> (recreated: bool)
        requires
            old(self).wf(),
            old(self)@.phase is Idle,
            old(self)@.recreation_count < u64::MAX,
            capabilities.wf(),
        ensures
            final(self).wf(),
            final(self)@.phase is Idle,
            recreated == !resize_is_noop(old(self)@, width, height),
            final(self)@ == resize_view(old(self)@, width, height, *capabilities),
            !recreated ==> final(self)@ == old(self)@,
            recreated ==> final(self)@.width == clamp_extent(
                width,
                capabilities.min_width,
                capabilities.max_width,
            ),
            recreated ==> final(self)@.height == clamp_extent(
                height,
                capabilities.min_height,
                capabilities.max_height,
            ),
            recreated ==> final(self)@.recreation_count == old(self)@.recreation_count + 1,
    {
        if width == 0 || height == 0 || (width == self.width && height == self.height) {
            return false;
        }

        let mut w = width;
        if w < capabilities.min_width {
            w = capabilities.min_width;
        } else if w > capabilities.max_width {
            w = capabilities.max_width;
        }
        let mut h = height;
        if h < capabilities.min_height {
            h = capabilities.min_height;
        } else if h > capabilities.max_height {
            h = capabilities.max_height;
        }

        self.width = w;
        self.height = h;
        self.recreation_count = self.recreation_count + 1;
        true
    }

    /// Polls the current slot's submission and presentation fences, each
    /// reported as signaled or not. Unless both are signaled the frame is
    /// not ready: nothing changes and the caller reports `NotReady` without
    /// having touched a fence or semaphore. Once both are signaled the pass
    /// moves on to acquiring an image.
    pub fn poll_current_slot(
        &mut self,
        submission_done: bool,
        presentation_done: bool,
    ) -> (proceed: bool)
        requires
            old(self).wf(),
            old(self)@.phase is Idle,
        ensures
            final(self).wf(),
            proceed == (submission_done && presentation_done),
            final(self)@ == poll_view(old(self)@, submission_done, presentation_done),
            !proceed ==> final(self)@ == old(self)@,
            proceed ==> final(self)@ == (SwapchainView { phase: FramePhase::Acquiring, ..old(self)@ }),
    {
        if submission_done && presentation_done {
            self.phase = FramePhase::Acquiring;
            true
        } else {
            false
        }
    }

    /// Takes the result of the zero-timeout image acquisition. When no image
    /// was ready or the surface is stale the pass is abandoned with the
    /// matching result and the state returns to exactly what it was. When an
    /// image was acquired, the pass moves to recording on the current slot
    /// and the ring advances immediately, whatever happens later in the
    /// frame, so the slot rotation always matches the ring size.
    pub fn finish_acquire(&mut self, outcome: AcquireOutcome) -> (step: AcquireStep)
        requires
            old(self).wf(),
            old(self)@.phase is Acquiring,
        ensures
            final(self).wf(),
            same_surface(final(self)@, old(self)@),
            match outcome {
                AcquireOutcome::NotReady => {
                    &&& step == (AcquireStep::Bail { result: RenderResult::NotReady })
                    &&& final(self)@ == (SwapchainView { phase: FramePhase::Idle, ..old(self)@ })
                },
                AcquireOutcome::OutOfDate => {
                    &&& step == (AcquireStep::Bail { result: RenderResult::OutOfDate })
                    &&& final(self)@ == (SwapchainView { phase: FramePhase::Idle, ..old(self)@ })
                },
                AcquireOutcome::Acquired { image_index, suboptimal } => {
                    &&& step == (AcquireStep::Begin {
                        slot: old(self)@.frame_counter,
                        image_index,
                    })
                    &&& final(self)@.phase == (FramePhase::Recording {
                        slot: old(self)@.frame_counter,
                        image_index,
                        suboptimal,
                    })
                    &&& final(self)@.frame_counter == (old(self)@.frame_counter + 1)
                        % (FRAMES_IN_FLIGHT_COUNT as int)
                },
            },
    {
        match outcome {
            AcquireOutcome::NotReady => {
                self.phase = FramePhase::Idle;
                AcquireStep::Bail { result: RenderResult::NotReady }
            },
            AcquireOutcome::OutOfDate => {
                self.phase = FramePhase::Idle;
                AcquireStep::Bail { result: RenderResult::OutOfDate }
            },
            AcquireOutcome::Acquired { image_index, suboptimal } => {
                let slot = self.frame_counter;
                self.frame_counter = (self.frame_counter + 1) % FRAMES_IN_FLIGHT_COUNT;
                self.phase = FramePhase::Recording { slot, image_index, suboptimal };
                AcquireStep::Begin { slot, image_index }
            },
        }
    }

    /// Closes the recording phase and plans the frame's submission. The wait
    /// set is the slot's image-acquired semaphore followed by the callback's
    /// extra wait, if any; the signal set is the slot's render-finished
    /// semaphore, then the timeline semaphore at the value reserved here for
    /// this submission, then the callback's extra signal, if any. The
    /// submission must be fenced with the slot's submission fence, reset
    /// beforehand.
    pub fn submit_frame(&mut self, device: &mut Device, sync: RenderSync) -> (plan: SubmitPlan)
        requires
            old(self).wf(),
            old(self)@.phase is Recording,
            old(device).wf(),
            old(device).reserved() < u64::MAX,
        ensures
            final(self).wf(),
            same_surface(final(self)@, old(self)@),
            final(self)@.frame_counter == old(self)@.frame_counter,
            final(device).wf(),
            final(device).reserved() == old(device).reserved() + 1,
            final(device).completed() == old(device).completed(),
            final(device).semaphore() == old(device).semaphore(),
            final(device).pending() == old(device).pending(),
            plan.timeline_value == old(device).reserved() + 1,
            old(self)@.phase matches FramePhase::Recording { slot, image_index, suboptimal }
                ==> {
                &&& final(self)@.phase == (FramePhase::Submitted { slot, image_index, suboptimal })
                &&& plan.command_buffer == old(self)@.slots[slot as int].command_buffer
                &&& plan.submission_fence == old(self)@.slots[slot as int].render_finished_fence
                &&& plan.wait_semaphore_infos@ == seq![
                    SemaphoreSignal {
                        semaphore: old(self)@.slots[slot as int].acquired_image_semaphore,
                        value: 0,
                        stage_mask: COLOR_ATTACHMENT_OUTPUT_STAGE,
                    },
                ] + opt_seq(sync.wait_semaphore_info)
                &&& plan.signal_semaphore_infos@ == seq![
                    SemaphoreSignal {
                        semaphore: old(self)@.slots[slot as int].render_finished_semaphore,
                        value: 0,
                        stage_mask: ALL_GRAPHICS_STAGE,
                    },
                    SemaphoreSignal {
                        semaphore: old(device).semaphore(),
                        value: (old(device).reserved() + 1) as u64,
                        stage_mask: 0,
                    },
                ] + opt_seq(sync.signal_semaphore_info)
            },
    {
        let (slot_index, image_index, suboptimal) = match self.phase {
            FramePhase::Recording { slot, image_index, suboptimal } => (
                slot,
                image_index,
                suboptimal,
            ),
            _ => vstd::pervasive::unreached(),
        };
        let slot = self.slots[slot_index];

        let timeline_info = device.signal_timeline_submit_info();

        let mut wait_semaphore_infos: Vec<SemaphoreSignal> = Vec::new();
        wait_semaphore_infos.push(
            SemaphoreSignal {
                semaphore: slot.acquired_image_semaphore,
                value: 0,
                stage_mask: COLOR_ATTACHMENT_OUTPUT_STAGE,
            },
        );
        if let Some(user_wait) = sync.wait_semaphore_info {
            wait_semaphore_infos.push(user_wait);
        }

        let mut signal_semaphore_infos: Vec<SemaphoreSignal> = Vec::new();
        signal_semaphore_infos.push(
            SemaphoreSignal {
                semaphore: slot.render_finished_semaphore,
                value: 0,
                stage_mask: ALL_GRAPHICS_STAGE,
            },
        );
        signal_semaphore_infos.push(timeline_info);
        if let Some(user_signal) = sync.signal_semaphore_info {
            signal_semaphore_infos.push(user_signal);
        }

        self.phase = FramePhase::Submitted { slot: slot_index, image_index, suboptimal };

        proof {
            assert(wait_semaphore_infos@ =~= seq![
                SemaphoreSignal {
                    semaphore: old(self)@.slots[slot_index as int].acquired_image_semaphore,
                    value: 0,
                    stage_mask: COLOR_ATTACHMENT_OUTPUT_STAGE,
                },
            ] + opt_seq(sync.wait_semaphore_info));
            assert(signal_semaphore_infos@ =~= seq![
                SemaphoreSignal {
                    semaphore: old(self)@.slots[slot_index as int].render_finished_semaphore,
                    value: 0,
                    stage_mask: ALL_GRAPHICS_STAGE,
                },
                SemaphoreSignal {
                    semaphore: old(device).semaphore(),
                    value: (old(device).reserved() + 1) as u64,
                    stage_mask: 0,
                },
            ] + opt_seq(sync.signal_semaphore_info));
        }

        SubmitPlan {
            command_buffer: slot.command_buffer,
            wait_semaphore_infos,
            signal_semaphore_infos,
            submission_fence: slot.render_finished_fence,
            timeline_value: timeline_info.value,
        }
    }

    /// Plans the presentation of the submitted frame: wait on the slot's
    /// render-finished semaphore, fence completion with the slot's
    /// presentation fence, reset beforehand, and present the acquired image.
    pub fn present_plan(&self) -> (plan: PresentPlan)
        requires
            self.wf(),
            self@.phase is Submitted,
        ensures
            self@.phase matches FramePhase::Submitted { slot, image_index, .. } ==> {
                &&& plan.wait_semaphore == self@.slots[slot as int].render_finished_semaphore
                &&& plan.presentation_fence == self@.slots[
                    slot as int
                ].finished_presenting_fence
                &&& plan.image_index == image_index
            },
    {
        let (slot_index, image_index) = match self.phase {
            FramePhase::Submitted { slot, image_index, .. } => (slot, image_index),
            _ => vstd::pervasive::unreached(),
        };
        let slot = self.slots[slot_index];
        PresentPlan {
            wait_semaphore: slot.render_finished_semaphore,
            presentation_fence: slot.finished_presenting_fence,
            image_index,
        }
    }

    /// Takes the result of the presentation call and closes the pass. A
    /// stale surface yields `OutOfDate` even though the submission already
    /// went through: the rendered frame is valid, only presentation needs a
    /// resize. Otherwise the frame was presented, and the result is
    /// `Suboptimal` when either the acquisition or the presentation raised
    /// the suboptimal flag, `Success` when neither did.
    pub fn finish_present(&mut self, outcome: PresentOutcome) -> (result: RenderResult)
        requires
            old(self).wf(),
            old(self)@.phase is Submitted,
        ensures
            final(self).wf(),
            final(self)@ == (SwapchainView { phase: FramePhase::Idle, ..old(self)@ }),
            old(self)@.phase matches FramePhase::Submitted { suboptimal, .. } ==> result
                == match outcome {
                PresentOutcome::OutOfDate => RenderResult::OutOfDate,
                PresentOutcome::Presented { suboptimal: also_suboptimal } => if suboptimal
                    || also_suboptimal {
                    RenderResult::Suboptimal
                } else {
                    RenderResult::Success
                },
            },
    {
        let suboptimal = match self.phase {
            FramePhase::Submitted { suboptimal, .. } => suboptimal,
            _ => vstd::pervasive::unreached(),
        };
        self.phase = FramePhase::Idle;
        match outcome {
            PresentOutcome::OutOfDate => RenderResult::OutOfDate,
            PresentOutcome::Presented { suboptimal: also_suboptimal } => {
                if suboptimal || also_suboptimal {
                    RenderResult::Suboptimal
                } else {
                    RenderResult::Success
                }
            },
        }
    }
}

/// An extra semaphore operation of a render callback, as a one-element wait
/// or signal set; absent, the set is empty.
pub open spec fn opt_seq(info: Option<SemaphoreSignal>) -> Seq<SemaphoreSignal> {
    match info {
        Some(s) => seq![s],
        None => Seq::empty(),
    }
}

/// A frame attempt that finds a fence unsignaled changes nothing: polling is
/// idempotent under not-ready. However often the fences are re-polled with
/// the same answers, the state after equals the state before, so repeated
/// attempts without external progress keep reporting not-ready and leave no
/// fence or semaphore half-consumed.
pub proof fn lemma_not_ready_poll_stable(
    v: SwapchainView,
    submission_done: bool,
    presentation_done: bool,
)
    requires
        !(submission_done && presentation_done),
    ensures
        poll_view(v, submission_done, presentation_done) == v,
        poll_view(
            poll_view(v, submission_done, presentation_done),
            submission_done,
            presentation_done,
        ) == poll_view(v, submission_done, presentation_done),
{
}

/// Resizing twice to the same extent performs only one real recreation: the
/// second request finds the extent already in place and is a no-op, down to
/// the recreation count. This holds whenever the first request was not
/// distorted by clamping: a zero extent (both requests are no-ops) or a
/// requested extent within the surface's reported bounds. A request outside
/// the bounds is stored clamped, so repeating it would recreate again.
pub proof fn lemma_resize_twice_once(
    v: SwapchainView,
    width: u32,
    height: u32,
    capabilities: SurfaceCapabilities,
)
    requires
        capabilities.wf(),
        width == 0 || height == 0 || (capabilities.min_width <= width <= capabilities.max_width
            && capabilities.min_height <= height <= capabilities.max_height),
    ensures
        resize_view(resize_view(v, width, height, capabilities), width, height, capabilities)
            == resize_view(v, width, height, capabilities),
        resize_view(v, width, height, capabilities).recreation_count <= v.recreation_count + 1,
{
}

} // verus!
