use vstd::prelude::*;

verus! {

/// What the platform reported when the engine asked for the next
/// presentable image.
#[derive(Clone, Copy, PartialEq, Eq, Structural, Debug)]
pub enum AcquireOutcome {
    /// An image is available; `suboptimal` warns that the swapchain no
    /// longer matches the surface perfectly.
    Success { index: usize, suboptimal: bool },
    /// The swapchain must be recreated before an image can be acquired.
    OutOfDate,
}

/// What the platform reported when the frame's work was submitted and its
/// image handed back for presentation.
#[derive(Clone, Copy, PartialEq, Eq, Structural, Debug)]
pub enum PresentOutcome {
    /// Submission and presentation were accepted; a completion signal for
    /// this frame's work is now outstanding.
    Presented,
    /// The swapchain went stale while presenting; recoverable.
    OutOfDate,
    /// Any other submission failure; the frame is dropped, a no-op completed
    /// signal takes the place of the real one, and the loop keeps running.
    Failed,
}

/// The scheduler's answer to an acquisition attempt.
#[derive(Clone, Copy, PartialEq, Eq, Structural, Debug)]
pub enum BeginFrame {
    /// Skip this frame entirely; recreation has been flagged for the next
    /// attempt.
    Skip,
    /// Record and submit against image `index`.  `wait_previous_use` tells
    /// the caller to wait on (or clean up) the completion signal of the last
    /// frame that used this image before reusing its resources;
    /// `join_previous_frame` tells it to join the previous frame's signal
    /// into this frame's dependency chain.
    Proceed { index: usize, wait_previous_use: bool, join_previous_frame: bool },
}

/// The scheduler state reduced to its mathematical content.  `slots` holds
/// one entry per swapchain image: true while a completion signal for real,
/// possibly unfinished GPU work on that image is outstanding.
#[verifier::ext_equal]
pub struct FrameModel {
    pub image_count: usize,
    pub slots: Seq<bool>,
    pub previous_slot: usize,
    pub recreate_pending: bool,
    pub in_flight: Option<usize>,
    pub swap_width: u32,
    pub swap_height: u32,
    pub window_width: u32,
    pub window_height: u32,
}

pub open spec fn frame_wf(m: FrameModel) -> bool {
    &&& 1 <= m.image_count
    &&& m.slots.len() == m.image_count
    &&& m.previous_slot < m.image_count
    &&& (m.in_flight matches Some(i) ==> i < m.image_count && !m.slots[i as int])
}

/// A resize only records the new size and flags recreation; nothing is
/// rebuilt until the next frame begins.
pub open spec fn frame_resized(m: FrameModel, width: u32, height: u32) -> FrameModel {
    FrameModel { window_width: width, window_height: height, recreate_pending: true, ..m }
}

/// Recreation rebuilds the swapchain at the latest window size.  When the
/// platform rejects the extent (a zero-sized, minimised window), nothing
/// changes — the flag stays up and the next frame retries.
pub open spec fn frame_recreated(m: FrameModel, supported: bool) -> FrameModel {
    if supported {
        FrameModel {
            swap_width: m.window_width,
            swap_height: m.window_height,
            recreate_pending: false,
            ..m
        }
    } else {
        m
    }
}

/// What beginning a frame does to the state.  A stale surface only flags
/// recreation.  A successful acquisition takes ownership of the image,
/// retires the signal left by the image's previous use, and consumes the
/// previous frame's signal into the new dependency chain.
pub open spec fn frame_begin(m: FrameModel, acquire: AcquireOutcome) -> FrameModel {
    match acquire {
        AcquireOutcome::OutOfDate => FrameModel { recreate_pending: true, ..m },
        AcquireOutcome::Success { index, suboptimal } => FrameModel {
            recreate_pending: m.recreate_pending || suboptimal,
            slots: m.slots.update(index as int, false).update(m.previous_slot as int, false),
            in_flight: Some(index),
            ..m
        },
    }
}

/// What beginning a frame answers the caller.
pub open spec fn frame_begin_result(m: FrameModel, acquire: AcquireOutcome) -> BeginFrame {
    match acquire {
        AcquireOutcome::OutOfDate => BeginFrame::Skip,
        AcquireOutcome::Success { index, suboptimal } => BeginFrame::Proceed {
            index,
            wait_previous_use: m.slots[index as int],
            join_previous_frame: index != m.previous_slot && m.slots[m.previous_slot as int],
        },
    }
}

/// What ending a frame does: file the new completion signal in the image's
/// slot (a real one only when presentation was accepted; failures substitute
/// an already-completed stand-in), remember the image as the previous frame,
/// and flag recreation on a stale present.
pub open spec fn frame_end(m: FrameModel, present: PresentOutcome) -> FrameModel {
    match m.in_flight {
        Some(i) => FrameModel {
            slots: m.slots.update(i as int, present is Presented),
            previous_slot: i,
            recreate_pending: m.recreate_pending || present is OutOfDate,
            in_flight: None,
            ..m
        },
        None => m,
    }
}

/// Drives acquire → record → submit → present, one frame at a time, tracking
/// per-image completion signals so that at most `image_count` frames are ever
/// in flight and no image is reused before its previous frame was observed
/// complete.
pub struct FrameScheduler {
    pub image_count: usize,
    pub slots: Vec<bool>,
    pub previous_slot: usize,
    pub recreate_pending: bool,
    pub in_flight: Option<usize>,
    pub swap_width: u32,
    pub swap_height: u32,
    pub window_width: u32,
    pub window_height: u32,
}

impl FrameScheduler {
    pub open spec fn model(self) -> FrameModel {
        FrameModel {
            image_count: self.image_count,
            slots: self.slots@,
            previous_slot: self.previous_slot,
            recreate_pending: self.recreate_pending,
            in_flight: self.in_flight,
            swap_width: self.swap_width,
            swap_height: self.swap_height,
            window_width: self.window_width,
            window_height: self.window_height,
        }
    }

    pub open spec fn wf(self) -> bool {
        frame_wf(self.model())
    }

    /// A fresh scheduler for a swapchain of `image_count` images created at
    /// the window's current size: no signal outstanding, no frame in flight,
    /// no recreation pending.
    pub fn new(image_count: usize, width: u32, height: u32) -> (s: Self)
        requires
            1 <= image_count,
        ensures
            s.wf(),
            s.image_count == image_count,
            s.slots@ == Seq::new(image_count as nat, |i: int| false),
            s.previous_slot == 0,
            !s.recreate_pending,
            s.in_flight is None,
            s.swap_width == width && s.swap_height == height,
            s.window_width == width && s.window_height == height,
    {
        let slots: Vec<bool> = vec![false; image_count];
        FrameScheduler {
            image_count,
            slots,
            previous_slot: 0,
            recreate_pending: false,
            in_flight: None,
            swap_width: width,
            swap_height: height,
            window_width: width,
            window_height: height,
        }
    }

    /// The window changed size: remember the new size and flag the swapchain
    /// for recreation before the next frame.
    pub fn window_resized(&mut self, width: u32, height: u32)
        requires
            old(self).wf(),
        ensures
            final(self).wf(),
            final(self).model() == frame_resized(old(self).model(), width, height),
    {
        self.window_width = width;
        self.window_height = height;
        self.recreate_pending = true;
    }

    /// Whether the next frame must recreate the swapchain before acquiring.
    pub fn needs_recreate(&self) -> (r: bool)
        ensures
            r == self.recreate_pending,
    {
        self.recreate_pending
    }

    /// The latest window size known to the scheduler, which a recreation
    /// must use as the new swapchain extent.
    pub fn window_size(&self) -> (r: (u32, u32))
        ensures
            r == (self.window_width, self.window_height),
    {
        (self.window_width, self.window_height)
    }

    /// Report the outcome of a swapchain recreation attempt.  On success the
    /// swapchain now has the latest window size and the flag comes down; on
    /// an unsupported extent nothing changed and the flag stays up, so the
    /// next frame retries.
    pub fn recreation_completed(&mut self, supported: bool)
        requires
            old(self).wf(),
            old(self).in_flight is None,
        ensures
            final(self).wf(),
            final(self).model() == frame_recreated(old(self).model(), supported),
    {
        if supported {
            self.swap_width = self.window_width;
            self.swap_height = self.window_height;
            self.recreate_pending = false;
        }
    }

    /// Begin a frame with the reported acquisition outcome.  A stale surface
    /// yields `Skip` and flags recreation — recoverable, never an error.  A
    /// successful acquisition takes ownership of the image and tells the
    /// caller which completion signals to wait on and to join.
    pub fn begin_frame(&mut self, acquire: AcquireOutcome) -> (r: BeginFrame)
        requires
            old(self).wf(),
            old(self).in_flight is None,
            acquire matches AcquireOutcome::Success { index, .. } ==> index < old(self).image_count,
        ensures
            final(self).wf(),
            final(self).model() == frame_begin(old(self).model(), acquire),
            r == frame_begin_result(old(self).model(), acquire),
            acquire is OutOfDate ==> r is Skip && final(self).recreate_pending && final(self).in_flight is None,
            acquire matches AcquireOutcome::Success { index, .. } ==> final(self).in_flight
                == Some(index) && !final(self).slots@[index as int],
    {
        match acquire {
            AcquireOutcome::OutOfDate => {
                self.recreate_pending = true;
                BeginFrame::Skip
            },
            AcquireOutcome::Success { index, suboptimal } => {
                if suboptimal {
                    self.recreate_pending = true;
                }
                let wait_previous_use = self.slots[index];
                self.slots.set(index, false);
                let join_previous_frame = index != self.previous_slot
                    && self.slots[self.previous_slot];
                self.slots.set(self.previous_slot, false);
                self.in_flight = Some(index);
                BeginFrame::Proceed { index, wait_previous_use, join_previous_frame }
            },
        }
    }

    /// End the in-flight frame with the reported submission/present outcome.
    /// The image's slot receives the frame's completion signal; a stale
    /// present flags recreation; any other failure is absorbed by an
    /// already-completed stand-in signal so the loop keeps running.
    pub fn end_frame(&mut self, present: PresentOutcome)
        requires
            old(self).wf(),
            old(self).in_flight is Some,
        ensures
            final(self).wf(),
            final(self).model() == frame_end(old(self).model(), present),
            final(self).in_flight is None,
            final(self).previous_slot == old(self).in_flight.unwrap(),
            present is OutOfDate ==> final(self).recreate_pending,
    {
        match self.in_flight {
            Some(i) => {
                self.slots.set(i, matches!(present, PresentOutcome::Presented));
                self.previous_slot = i;
                if matches!(present, PresentOutcome::OutOfDate) {
                    self.recreate_pending = true;
                }
                self.in_flight = None;
            },
            None => {},
        }
    }
}

/// Frame slot mutual exclusion: acquiring image `i` retires the signal left
/// by the image's previous use — the caller is told to wait exactly when
/// that use may still be running — and afterwards the slot is clear.  A
/// second acquisition of `i` cannot happen before `end_frame` (a frame is in
/// flight), and once `end_frame` files the new signal, the next acquisition
/// of `i` observes and waits on precisely that signal.
pub proof fn lemma_frame_slot_exclusion(
    m: FrameModel,
    i: usize,
    sub1: bool,
    present: PresentOutcome,
    sub2: bool,
)
    requires
        frame_wf(m),
        m.in_flight is None,
        i < m.image_count,
    ensures
        ({
            let m1 = frame_begin(m, AcquireOutcome::Success { index: i, suboptimal: sub1 });
            let m2 = frame_end(m1, present);
            &&& m1.in_flight == Some(i)
            &&& !m1.slots[i as int]
            &&& frame_wf(m1)
            &&& m2.slots[i as int] == (present is Presented)
            &&& frame_wf(m2)
            &&& m2.in_flight is None
            &&& frame_begin_result(m2, AcquireOutcome::Success { index: i, suboptimal: sub2 })
                == BeginFrame::Proceed {
                index: i,
                wait_previous_use: present is Presented,
                join_previous_frame: false,
            }
        }),
{
}

/// Resize recovery: after a resize event, once a recreation completes, the
/// swapchain has exactly the latest window size, and the next successful
/// acquisition proceeds against those dimensions — no frame is begun against
/// stale dimensions after a completed recreation.
pub proof fn lemma_resize_recovery(
    m: FrameModel,
    width: u32,
    height: u32,
    acquire: AcquireOutcome,
)
    requires
        frame_wf(m),
        m.in_flight is None,
        acquire matches AcquireOutcome::Success { index, .. } ==> index < m.image_count,
    ensures
        ({
            let m2 = frame_recreated(frame_resized(m, width, height), true);
            let m3 = frame_begin(m2, acquire);
            &&& m2.swap_width == width && m2.swap_height == height
            &&& !m2.recreate_pending
            &&& frame_wf(m2)
            &&& m3.swap_width == width && m3.swap_height == height
            &&& (acquire matches AcquireOutcome::Success { .. } ==> frame_begin_result(m2, acquire)
                is Proceed)
        }),
{
}

} // verus!
