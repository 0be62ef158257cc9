use vstd::prelude::*;
use crate::batch::{batch_flush, CommittedBufferSet, QuadBatcher, QuadInstance};
use crate::camera::{vp_wf, VpMatrix};
use crate::frame::{
    frame_begin, frame_begin_result, frame_end, frame_resized, AcquireOutcome, BeginFrame,
    FrameScheduler, PresentOutcome,
};
use crate::render_pass::{
    apply_vulkan_correction, correction_in_range, is_vulkan_corrected, record, ColorBits,
    CommandList, QUAD_INDEX_COUNT,
};

verus! {

/// The bit pattern of 1.0 in single precision; the default background is
/// opaque black.
pub const ONE_BITS: u32 = 0x3F80_0000;

/// The renderer's engine-side state: the frame schedule, the quad batcher
/// and the clear colour.  Everything the graphics device itself does —
/// uploads, command buffers, fences, presentation — happens outside, driven
/// by the values these methods return and reported back through their
/// outcome arguments.
pub struct Renderer2D {
    pub background_color: ColorBits,
    pub scheduler: FrameScheduler,
    pub batcher: QuadBatcher,
}

impl Renderer2D {
    pub open spec fn wf(self) -> bool {
        &&& self.scheduler.wf()
        &&& self.batcher.wf()
        &&& self.batcher.max_quads <= u32::MAX
    }

    /// A renderer for a swapchain of `image_count` images at the given
    /// window size, batching up to `max_quads` quads per draw call and
    /// clearing to opaque black.
    pub fn new(image_count: usize, width: u32, height: u32, max_quads: usize) -> (r: Self)
        requires
            1 <= image_count,
            1 <= max_quads <= u32::MAX,
        ensures
            r.wf(),
            r.background_color == (ColorBits { r: 0, g: 0, b: 0, a: ONE_BITS }),
            r.scheduler.image_count == image_count,
            r.scheduler.slots@ == Seq::new(image_count as nat, |i: int| false),
            r.scheduler.previous_slot == 0,
            r.scheduler.swap_width == width && r.scheduler.swap_height == height,
            r.scheduler.window_width == width && r.scheduler.window_height == height,
            !r.scheduler.recreate_pending,
            r.scheduler.in_flight is None,
            r.batcher.max_quads == max_quads,
            r.batcher.active@.len() == 0,
            r.batcher.committed@.len() == 0,
    {
        Renderer2D {
            background_color: ColorBits { r: 0, g: 0, b: 0, a: ONE_BITS },
            scheduler: FrameScheduler::new(image_count, width, height),
            batcher: QuadBatcher::new(max_quads),
        }
    }

    pub fn set_background_color(&mut self, c: ColorBits)
        requires
            old(self).wf(),
        ensures
            final(self).wf(),
            *final(self) == (Renderer2D { background_color: c, ..*old(self) }),
    {
        self.background_color = c;
    }

    /// The window changed size: flag the swapchain for recreation before
    /// the next frame.
    pub fn window_resized(&mut self, width: u32, height: u32)
        requires
            old(self).wf(),
        ensures
            final(self).wf(),
            final(self).scheduler.model() == frame_resized(
                old(self).scheduler.model(),
                width,
                height,
            ),
            final(self).batcher == old(self).batcher,
            final(self).background_color == old(self).background_color,
    {
        self.scheduler.window_resized(width, height);
    }

    /// Queue one quad for this frame.
    pub fn draw_quad(&mut self, q: QuadInstance)
        requires
            old(self).wf(),
        ensures
            final(self).wf(),
            final(self).batcher.model() == crate::batch::batch_add(old(self).batcher.model(), q),
            final(self).scheduler == old(self).scheduler,
            final(self).background_color == old(self).background_color,
    {
        self.batcher.add_quad(q);
    }

    /// Begin a frame with the reported acquisition outcome; see
    /// `FrameScheduler::begin_frame`.
    pub fn begin(&mut self, acquire: AcquireOutcome) -> (r: BeginFrame)
        requires
            old(self).wf(),
            old(self).scheduler.in_flight is None,
            acquire matches AcquireOutcome::Success { index, .. } ==> index < old(
                self,
            ).scheduler.image_count,
        ensures
            final(self).wf(),
            final(self).scheduler.model() == frame_begin(old(self).scheduler.model(), acquire),
            r == frame_begin_result(old(self).scheduler.model(), acquire),
            final(self).batcher == old(self).batcher,
            final(self).background_color == old(self).background_color,
    {
        self.scheduler.begin_frame(acquire)
    }

    /// Close the frame's batches and record its command list: the remaining
    /// active batch is flushed, every committed set becomes exactly one draw
    /// call in commit order, the clear colour is the background, and the
    /// transform carried is `vp` with the device-convention correction
    /// pre-applied.  The committed sets come back with the command list —
    /// the caller uploads each set and issues its draw — and the batcher is
    /// left empty for the next frame.
    pub fn end_record(&mut self, vp: VpMatrix) -> (r: (CommandList, Vec<CommittedBufferSet>))
        requires
            old(self).wf(),
            vp_wf(vp),
            correction_in_range(vp),
        ensures
            final(self).wf(),
            final(self).scheduler == old(self).scheduler,
            final(self).background_color == old(self).background_color,
            final(self).batcher.max_quads == old(self).batcher.max_quads,
            final(self).batcher.active@.len() == 0,
            final(self).batcher.committed@.len() == 0,
            r.0.clear_color == old(self).background_color,
            is_vulkan_corrected(r.0.mvp, vp),
            ({
                let flushed = batch_flush(old(self).batcher.model());
                &&& r.1@.map_values(|s: CommittedBufferSet| s.instances@) == flushed.committed
                &&& r.0.draws@.len() == flushed.committed.len()
                &&& r.1@.len() == flushed.committed.len()
                &&& forall|i: int|
                    0 <= i < flushed.committed.len() ==> (#[trigger] r.0.draws@[i]).instance_count
                        == flushed.committed[i].len() && r.0.draws@[i].index_count
                        == QUAD_INDEX_COUNT
            }),
    {
        let mvp = apply_vulkan_correction(vp);
        let _ = self.batcher.flush();
        let sets = self.batcher.take_committed();
        let cl = record(self.background_color, mvp, &sets);
        proof {
            let flushed = batch_flush(old(self).batcher.model());
            assert(sets@.map_values(|s: CommittedBufferSet| s.instances@) =~= flushed.committed);
            assert forall|i: int| 0 <= i < flushed.committed.len() implies (
            #[trigger] cl.draws@[i]).instance_count == flushed.committed[i].len()
                && cl.draws@[i].index_count == QUAD_INDEX_COUNT by {
                assert(flushed.committed[i] == sets@[i].instances@);
            }
        }
        (cl, sets)
    }

    /// Report how submission and presentation went; see
    /// `FrameScheduler::end_frame`.
    pub fn end_present(&mut self, present: PresentOutcome)
        requires
            old(self).wf(),
            old(self).scheduler.in_flight is Some,
        ensures
            final(self).wf(),
            final(self).scheduler.model() == frame_end(old(self).scheduler.model(), present),
            final(self).batcher == old(self).batcher,
            final(self).background_color == old(self).background_color,
    {
        self.scheduler.end_frame(present);
    }
}

} // verus!
