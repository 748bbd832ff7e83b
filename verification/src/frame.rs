//! The frame pacing of the renderer: when the swapchain is rebuilt, and which
//! frame fences a frame waits on.
//!
//! The renderer keeps one fence slot per swapchain image. A frame acquires an
//! image, waits on the fence of the frame before it (or starts from nothing
//! when that slot is empty), waits on the fence last stored for its image,
//! submits, and stores the new fence in its image's slot. A resize of the
//! window, an out-of-date swapchain or a suboptimal image asks for the
//! swapchain to be rebuilt before the next frame.
use vstd::prelude::*;

verus! {

/// What acquiring the next swapchain image gave.
#[derive(Debug, Clone, Copy, PartialEq, Eq, Structural)]
pub enum AcquireOutcome {
    /// The image at `image` was acquired; the swapchain may be suboptimal.
    Acquired { image: usize, suboptimal: bool },
    /// The swapchain no longer matches the surface.
    OutOfDate,
}

/// What submitting and presenting a frame gave.
#[derive(Debug, Clone, Copy, PartialEq, Eq, Structural)]
pub enum FlushOutcome {
    /// The frame was submitted and its fence is kept.
    Flushed,
    /// The swapchain no longer matches the surface; no fence is kept.
    OutOfDate,
    /// The submission failed otherwise; no fence is kept.
    Failed,
}

/// The abstract state of the frame pacing.
pub struct FrameView {
    pub window_resized: bool,
    pub recreate_swapchain: bool,
    /// For each swapchain image, whether its slot holds a fence.
    pub fences: Seq<bool>,
    /// The image of the last submitted frame.
    pub previous_fence: int,
}

/// The frame pacing state of the renderer.
pub struct FrameState {
    window_resized: bool,
    recreate_swapchain: bool,
    fences: Vec<bool>,
    previous_fence: usize,
}

impl FrameState {
    /// The previous frame's slot is always a slot.
    #[verifier::type_invariant]
    spec fn previous_is_a_slot(self) -> bool {
        self.previous_fence < self.fences@.len()
    }
}

impl View for FrameState {
    type V = FrameView;

    closed spec fn view(&self) -> FrameView {
        FrameView {
            window_resized: self.window_resized,
            recreate_swapchain: self.recreate_swapchain,
            fences: self.fences@,
            previous_fence: self.previous_fence as int,
        }
    }
}

/// The previous frame's slot is a slot.
pub open spec fn frame_wf(v: FrameView) -> bool {
    0 <= v.previous_fence < v.fences.len()
}

/// The swapchain is to be rebuilt before the next frame.
pub open spec fn resize_pending(v: FrameView) -> bool {
    v.window_resized || v.recreate_swapchain
}

/// The state after the window reported a new size.
pub open spec fn after_window_resized(v: FrameView) -> FrameView {
    FrameView { window_resized: true, ..v }
}

/// The state after a pending rebuild was taken.
pub open spec fn after_take_resize(v: FrameView) -> FrameView {
    FrameView { window_resized: false, recreate_swapchain: false, ..v }
}

/// The state after acquiring an image gave `o`.
pub open spec fn after_acquire(v: FrameView, o: AcquireOutcome) -> FrameView {
    match o {
        AcquireOutcome::OutOfDate => FrameView { recreate_swapchain: true, ..v },
        AcquireOutcome::Acquired { image, suboptimal } => FrameView {
            recreate_swapchain: v.recreate_swapchain || suboptimal,
            ..v
        },
    }
}

/// The image a frame goes on with after acquiring gave `o`, if any.
pub open spec fn acquired_image(o: AcquireOutcome) -> Option<usize> {
    match o {
        AcquireOutcome::OutOfDate => None,
        AcquireOutcome::Acquired { image, suboptimal } => Some(image),
    }
}

/// The state after the frame on `image` was flushed with outcome `o`.
pub open spec fn after_flush(v: FrameView, image: int, o: FlushOutcome) -> FrameView {
    FrameView {
        fences: v.fences.update(image, o == FlushOutcome::Flushed),
        recreate_swapchain: v.recreate_swapchain || o == FlushOutcome::OutOfDate,
        previous_fence: image,
        ..v
    }
}

impl FrameState {
    /// The pacing of a swapchain with `image_count` images: no fence held,
    /// nothing pending, and the first image as the previous frame.
    pub fn new(image_count: usize) -> (r: FrameState)
        requires
            image_count >= 1,
        ensures
            r@.fences == Seq::new(image_count as nat, |i: int| false),
            r@.previous_fence == 0,
            !r@.window_resized,
            !r@.recreate_swapchain,
            frame_wf(r@),
    {
        let mut fences: Vec<bool> = Vec::new();
        let mut i: usize = 0;
        while i < image_count
            invariant
                i <= image_count,
                fences@ == Seq::new(i as nat, |k: int| false),
            decreases image_count - i,
        {
            fences.push(false);
            i = i + 1;
        }
        FrameState { window_resized: false, recreate_swapchain: false, fences, previous_fence: 0 }
    }

    /// The number of fence slots, one per swapchain image.
    pub fn image_count(&self) -> (r: usize)
        ensures
            r == self@.fences.len(),
    {
        self.fences.len()
    }

    /// The image of the last submitted frame.
    pub fn previous_image(&self) -> (r: usize)
        ensures
            r == self@.previous_fence,
            r < self@.fences.len(),
    {
        proof {
            use_type_invariant(self);
        }
        self.previous_fence
    }

    /// Whether the window reported a new size that no rebuild has taken yet.
    pub fn window_was_resized(&self) -> (r: bool)
        ensures
            r == self@.window_resized,
    {
        self.window_resized
    }

    /// Notes that the window reported a new size.
    pub fn window_resized(&mut self)
        ensures
            final(self)@ == after_window_resized(old(self)@),
    {
        proof {
            use_type_invariant(&*self);
        }
        self.window_resized = true;
    }

    /// Whether the swapchain is to be rebuilt now; a pending rebuild is
    /// taken, so that the flags are cleared.
    pub fn take_resize_request(&mut self) -> (r: bool)
        ensures
            r == resize_pending(old(self)@),
            final(self)@ == (if r { after_take_resize(old(self)@) } else { old(self)@ }),
    {
        proof {
            use_type_invariant(&*self);
        }
        if self.window_resized || self.recreate_swapchain {
            self.recreate_swapchain = false;
            self.window_resized = false;
            true
        } else {
            false
        }
    }

    /// Takes what acquiring an image gave. An out-of-date swapchain skips the
    /// frame and asks for a rebuild; a suboptimal one goes on and asks for a
    /// rebuild. The image the frame goes on with, if any, is returned.
    pub fn on_acquire(&mut self, outcome: AcquireOutcome) -> (r: Option<usize>)
        requires
            (outcome matches AcquireOutcome::Acquired { image, .. } ==> image < old(self)@.fences.len()),
        ensures
            r == acquired_image(outcome),
            final(self)@ == after_acquire(old(self)@, outcome),
    {
        proof {
            use_type_invariant(&*self);
        }
        match outcome {
            AcquireOutcome::OutOfDate => {
                self.recreate_swapchain = true;
                None
            },
            AcquireOutcome::Acquired { image, suboptimal } => {
                if suboptimal {
                    self.recreate_swapchain = true;
                }
                Some(image)
            },
        }
    }

    /// Whether the frame waits on the fence of the previous frame; if not, it
    /// starts from nothing.
    pub fn waits_on_previous(&self) -> (r: bool)
        ensures
            r == self@.fences[self@.previous_fence],
            frame_wf(self@),
    {
        proof {
            use_type_invariant(self);
        }
        self.fences[self.previous_fence]
    }

    /// Whether the frame on `image` first waits on the fence stored for that image.
    pub fn waits_on_image(&self, image: usize) -> (r: bool)
        requires
            image < self@.fences.len(),
        ensures
            r == self@.fences[image as int],
    {
        self.fences[image]
    }

    /// Takes what flushing the frame on `image` gave: the image's slot holds a
    /// fence only if the frame was flushed, an out-of-date swapchain asks for
    /// a rebuild, and the image becomes the previous frame's.
    pub fn on_flush(&mut self, image: usize, outcome: FlushOutcome)
        requires
            image < old(self)@.fences.len(),
        ensures
            final(self)@ == after_flush(old(self)@, image as int, outcome),
    {
        proof {
            use_type_invariant(&*self);
        }
        let kept = match outcome {
            FlushOutcome::Flushed => true,
            _ => false,
        };
        let mut fences: Vec<bool> = Vec::new();
        let mut i: usize = 0;
        while i < self.fences.len()
            invariant
                i <= self.fences@.len(),
                image < self.fences@.len(),
                fences@ == self.fences@.update(image as int, kept).take(i as int),
            decreases self.fences@.len() - i,
        {
            if i == image {
                fences.push(kept);
            } else {
                fences.push(self.fences[i]);
            }
            i = i + 1;
            assert(fences@ =~= self.fences@.update(image as int, kept).take(i as int));
        }
        assert(fences@ =~= self.fences@.update(image as int, kept));
        self.fences = fences;
        if let FlushOutcome::OutOfDate = outcome {
            self.recreate_swapchain = true;
        }
        self.previous_fence = image;
    }
}

/// Every step keeps the previous frame's slot a slot.
pub proof fn law_steps_keep_frame_wf(v: FrameView, o: AcquireOutcome, image: int, f: FlushOutcome)
    requires
        frame_wf(v),
        0 <= image < v.fences.len(),
    ensures
        frame_wf(after_window_resized(v)),
        frame_wf(after_take_resize(v)),
        frame_wf(after_acquire(v, o)),
        frame_wf(after_flush(v, image, f)),
{
}

/// A rebuild is asked for by a resize, an out-of-date or suboptimal
/// acquisition, or an out-of-date flush, and is then taken exactly once.
pub proof fn law_rebuild_requests_taken_once(v: FrameView, image: usize, suboptimal: bool, i: int)
    requires
        0 <= i < v.fences.len(),
    ensures
        resize_pending(after_window_resized(v)),
        resize_pending(after_acquire(v, AcquireOutcome::OutOfDate)),
        suboptimal ==> resize_pending(after_acquire(v, (AcquireOutcome::Acquired { image, suboptimal }))),
        resize_pending(after_flush(v, i, FlushOutcome::OutOfDate)),
        !resize_pending(after_take_resize(v)),
        !resize_pending(v) ==> !resize_pending(after_acquire(v, (AcquireOutcome::Acquired { image, suboptimal: false }))),
        !resize_pending(v) ==> !resize_pending(after_flush(v, i, FlushOutcome::Flushed)),
        !resize_pending(v) ==> !resize_pending(after_flush(v, i, FlushOutcome::Failed)),
{
}

/// After a frame on `image` is flushed, the next frame waits on its fence
/// exactly when the flush kept one, and the other slots are unchanged.
pub proof fn law_next_frame_waits_on_flushed(v: FrameView, image: int, o: FlushOutcome)
    requires
        0 <= image < v.fences.len(),
    ensures
        after_flush(v, image, o).previous_fence == image,
        after_flush(v, image, o).fences[image] == (o == FlushOutcome::Flushed),
        forall|k: int|
            0 <= k < v.fences.len() && k != image ==> #[trigger] after_flush(v, image, o).fences[k] == v.fences[k],
        after_flush(v, image, o).fences.len() == v.fences.len(),
{
}

/// Only a flush changes the fence slots and the previous frame: acquiring
/// an image (whatever came of it), a resize and taking a rebuild leave every
/// slot and the previous frame as they were. So a fence a flush stored for an
/// image is still waited on when that image is acquired again.
pub proof fn law_only_flush_touches_fences(v: FrameView, o: AcquireOutcome, i: int, image: usize, suboptimal: bool)
    ensures
        after_acquire(v, o).fences == v.fences,
        after_acquire(v, o).previous_fence == v.previous_fence,
        after_acquire(v, o).window_resized == v.window_resized,
        after_window_resized(v).fences == v.fences,
        after_window_resized(v).previous_fence == v.previous_fence,
        after_window_resized(v).recreate_swapchain == v.recreate_swapchain,
        after_take_resize(v).fences == v.fences,
        after_take_resize(v).previous_fence == v.previous_fence,
        0 <= i < v.fences.len() ==> after_acquire(
            after_flush(v, i, FlushOutcome::Flushed),
            (AcquireOutcome::Acquired { image, suboptimal }),
        ).fences[i],
        0 <= i < v.fences.len() ==> after_acquire(after_flush(v, i, FlushOutcome::Flushed), o).previous_fence == i,
{
}

/// The image a frame goes on with is the one acquisition gave, and an
/// out-of-date swapchain gives none; whether the frame waits on the previous
/// frame's fence is the slot the last flush filled.
pub proof fn law_acquired_image(v: FrameView, image: usize, suboptimal: bool, i: int, f: FlushOutcome)
    requires
        0 <= i < v.fences.len(),
    ensures
        acquired_image((AcquireOutcome::Acquired { image, suboptimal })) == Some(image),
        acquired_image(AcquireOutcome::OutOfDate) is None,
        after_flush(v, i, f).fences[after_flush(v, i, f).previous_fence] == (f == FlushOutcome::Flushed),
{
}

/// A rebuild that was asked for stays asked for until it is taken: no
/// acquisition, flush or resize drops it. An acquisition asks for one exactly
/// when the swapchain is out of date or suboptimal, a flush exactly when it
/// is out of date, and a resize only through its own flag.
pub proof fn law_rebuild_requests_persist(v: FrameView, o: AcquireOutcome, i: int, f: FlushOutcome)
    requires
        0 <= i < v.fences.len(),
    ensures
        resize_pending(v) ==> resize_pending(after_acquire(v, o)),
        resize_pending(v) ==> resize_pending(after_flush(v, i, f)),
        resize_pending(v) ==> resize_pending(after_window_resized(v)),
        after_acquire(v, o).recreate_swapchain == (v.recreate_swapchain || o == AcquireOutcome::OutOfDate || (
        o matches AcquireOutcome::Acquired { suboptimal, .. } && suboptimal)),
        after_flush(v, i, f).recreate_swapchain == (v.recreate_swapchain || f == FlushOutcome::OutOfDate),
        after_flush(v, i, f).window_resized == v.window_resized,
        after_window_resized(v).window_resized,
{
}

} // verus!
