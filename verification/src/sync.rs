//! The per-frame synchronization slots and the rotating frame index.
//!
//! A slot is *in flight* from the moment work that signals its fence has been
//! submitted until a wait on that fence has returned. The synchronizer keeps
//! count of both events, which bounds how far the CPU runs ahead of the GPU.
use vstd::prelude::*;

verus! {

/// The number of frames in flight unless configured otherwise: the CPU may
/// prepare one frame while the GPU still draws the previous one.
pub const DEFAULT_FRAMES_IN_FLIGHT: usize = 2;

/// The primitives of one frame in flight, as raw handles.
#[derive(Clone, Copy, Debug, PartialEq, Eq, Structural)]
pub struct FrameSlot {
    /// Signaled when the acquired image may be drawn into.
    pub image_available: u64,
    /// Signaled when drawing has finished and the image may be presented.
    pub render_finished: u64,
    /// Signaled for the CPU when the submitted work has completed.
    pub in_flight_fence: u64,
    /// The command buffer the frame is recorded into.
    pub command_buffer: u64,
}

/// Owner of the slots, of the frame index and of what is known about each
/// fence.
pub struct FrameSynchronizer {
    slots: Vec<FrameSlot>,
    unsignaled: Vec<bool>,
    current: usize,
    submitted: Ghost<nat>,
    completed: Ghost<nat>,
}

/// How many entries of `flags` are set.
pub open spec fn count_set(flags: Seq<bool>) -> nat
    decreases flags.len(),
{
    if flags.len() == 0 {
        0
    } else {
        count_set(flags.drop_last()) + if flags.last() { 1nat } else { 0nat }
    }
}

/// The frame index that follows `index` among `frames` slots.
pub open spec fn next_index(index: nat, frames: nat) -> nat {
    if index + 1 < frames { index + 1 } else { 0 }
}

/// The frame index after `ticks` advances, starting from `index`.
pub open spec fn index_after(index: nat, frames: nat, ticks: nat) -> nat
    decreases ticks,
{
    if ticks == 0 {
        index
    } else {
        next_index(index_after(index, frames, (ticks - 1) as nat), frames)
    }
}

/// The semaphores of the slots, in order: for each slot its image-available
/// primitive, then its render-finished primitive.
pub open spec fn slot_semaphores(slots: Seq<FrameSlot>) -> Seq<u64> {
    Seq::new(
        2 * slots.len(),
        |i: int|
            if i % 2 == 0 {
                slots[i / 2].image_available
            } else {
                slots[i / 2].render_finished
            },
    )
}

/// The fences of the slots, in order.
pub open spec fn slot_fences(slots: Seq<FrameSlot>) -> Seq<u64> {
    Seq::new(slots.len(), |i: int| slots[i].in_flight_fence)
}

/// No more entries are set than there are entries.
pub proof fn lemma_count_set_bound(flags: Seq<bool>)
    ensures
        count_set(flags) <= flags.len(),
    decreases flags.len(),
{
    if flags.len() > 0 {
        lemma_count_set_bound(flags.drop_last());
    }
}

/// Changing one entry changes the count by that entry alone.
pub proof fn lemma_count_set_update(flags: Seq<bool>, at: int, value: bool)
    requires
        0 <= at < flags.len(),
    ensures
        count_set(flags.update(at, value)) + (if flags[at] { 1int } else { 0int }) == count_set(
            flags,
        ) + (if value { 1int } else { 0int }),
    decreases flags.len(),
{
    let changed = flags.update(at, value);
    if at == flags.len() - 1 {
        assert(changed.drop_last() =~= flags.drop_last());
    } else {
        assert(changed.drop_last() =~= flags.drop_last().update(at, value));
        lemma_count_set_update(flags.drop_last(), at, value);
    }
}

/// Where no entry is set the count is zero.
pub proof fn lemma_count_set_none(flags: Seq<bool>)
    requires
        forall|i: int| 0 <= i < flags.len() ==> !flags[i],
    ensures
        count_set(flags) == 0,
    decreases flags.len(),
{
    if flags.len() > 0 {
        lemma_count_set_none(flags.drop_last());
    }
}

/// Frame-slot rotation: advancing `ticks` times from `index` arrives at
/// `(index + ticks) mod frames`; from index 0 that is `ticks mod frames`.
pub proof fn lemma_rotation(index: nat, frames: nat, ticks: nat)
    requires
        frames > 0,
        index < frames,
    ensures
        index_after(index, frames, ticks) == ((index + ticks) as int) % (frames as int),
        index_after(index, frames, ticks) < frames,
    decreases ticks,
{
    if ticks == 0 {
        assert(index % frames == index) by (nonlinear_arith)
            requires
                index < frames,
        ;
    } else {
        lemma_rotation(index, frames, (ticks - 1) as nat);
        let before = index_after(index, frames, (ticks - 1) as nat);
        let sum: int = index + ticks - 1;
        assert(before == sum % (frames as int));
        if before + 1 < frames {
            assert((sum + 1) % (frames as int) == before + 1) by (nonlinear_arith)
                requires
                    frames > 0,
                    before == sum % (frames as int),
                    before + 1 < frames,
                    sum >= 0,
            ;
        } else {
            assert((sum + 1) % (frames as int) == 0) by (nonlinear_arith)
                requires
                    frames > 0,
                    before == sum % (frames as int),
                    before + 1 == frames,
                    sum >= 0,
            ;
        }
    }
}

impl FrameSynchronizer {
    /// The slots, in order.
    pub closed spec fn slots(&self) -> Seq<FrameSlot> {
        self.slots@
    }

    /// The number of slots, which is the most frames that can be in flight.
    pub open spec fn frames(&self) -> nat {
        self.slots().len()
    }

    /// The index of the slot that the current tick uses.
    pub closed spec fn index(&self) -> nat {
        self.current as nat
    }

    /// For each slot, whether its fence is unsignaled as far as the CPU
    /// knows.
    pub closed spec fn unsignaled(&self) -> Seq<bool> {
        self.unsignaled@
    }

    /// How many submissions have been issued.
    pub closed spec fn submissions(&self) -> nat {
        self.submitted@
    }

    /// How many completions have been observed through a fence wait.
    pub closed spec fn completions(&self) -> nat {
        self.completed@
    }

    /// How many slots are in flight.
    pub open spec fn in_flight(&self) -> nat {
        count_set(self.unsignaled())
    }

    /// The invariant of the synchronizer: there is at least one slot, the
    /// frame index names one of them, and the slots in flight are exactly
    /// the submissions that have not been seen to complete.
    pub closed spec fn wf(&self) -> bool {
        &&& self.slots@.len() > 0
        &&& self.unsignaled@.len() == self.slots@.len()
        &&& self.current < self.slots@.len()
        &&& self.completed@ <= self.submitted@
        &&& count_set(self.unsignaled@) == self.submitted@ - self.completed@
    }

    /// Fence discipline: never more slots in flight than there are slots, and
    /// never more than the submissions that have not been seen to complete.
    pub proof fn lemma_fence_discipline(&self)
        requires
            self.wf(),
        ensures
            self.frames() > 0,
            self.index() < self.frames(),
            self.unsignaled().len() == self.frames(),
            self.in_flight() <= self.frames(),
            self.completions() <= self.submissions(),
            self.in_flight() == self.submissions() - self.completions(),
    {
        lemma_count_set_bound(self.unsignaled@);
    }

    /// Takes over the slots that were created at startup. Every fence starts
    /// signaled, so that the first wait on each slot returns at once.
    ///
    /// There is no synchronizer without a slot.
    pub fn new(slots: Vec<FrameSlot>) -> (made: Option<FrameSynchronizer>)
        ensures
            made is Some <==> slots@.len() > 0,
            made is Some ==> {
                let sync = made->0;
                &&& sync.wf()
                &&& sync.slots() == slots@
                &&& sync.index() == 0
                &&& sync.unsignaled() == Seq::new(slots@.len(), |i: int| false)
                &&& sync.in_flight() == 0
                &&& sync.submissions() == 0
                &&& sync.completions() == 0
            },
    {
        if slots.len() == 0 {
            return None;
        }
        let mut unsignaled: Vec<bool> = Vec::new();
        let mut i: usize = 0;
        while i < slots.len()
            invariant
                0 <= i <= slots@.len(),
                unsignaled@.len() == i,
                forall|j: int| 0 <= j < i ==> !unsignaled@[j],
            decreases slots@.len() - i,
        {
            unsignaled.push(false);
            i += 1;
        }
        proof {
            lemma_count_set_none(unsignaled@);
            assert(unsignaled@ =~= Seq::new(slots@.len(), |i: int| false));
        }
        Some(
            FrameSynchronizer {
                slots,
                unsignaled,
                current: 0,
                submitted: Ghost(0),
                completed: Ghost(0),
            },
        )
    }

    /// The number of slots.
    pub fn frame_count(&self) -> (count: usize)
        requires
            self.wf(),
        ensures
            count == self.frames(),
            count > 0,
    {
        self.slots.len()
    }

    /// The index of the slot that the current tick uses.
    pub fn current_frame_index(&self) -> (index: usize)
        requires
            self.wf(),
        ensures
            index == self.index(),
            index < self.frames(),
    {
        self.current
    }

    /// The slot that the current tick uses.
    pub fn current_slot(&self) -> (slot: FrameSlot)
        requires
            self.wf(),
        ensures
            slot == self.slots()[self.index() as int],
    {
        self.slots[self.current]
    }

    /// Whether the fence of the current slot is unsignaled as far as the CPU
    /// knows.
    pub fn current_in_flight(&self) -> (busy: bool)
        requires
            self.wf(),
        ensures
            busy == self.unsignaled()[self.index() as int],
    {
        self.unsignaled[self.current]
    }

    /// How many slots are in flight.
    pub fn frames_in_flight(&self) -> (count: usize)
        requires
            self.wf(),
        ensures
            count == self.in_flight(),
            count <= self.frames(),
            count == self.submissions() - self.completions(),
    {
        let mut count: usize = 0;
        let mut i: usize = 0;
        while i < self.unsignaled.len()
            invariant
                0 <= i <= self.unsignaled@.len(),
                count == count_set(self.unsignaled@.subrange(0, i as int)),
                count <= i,
            decreases self.unsignaled@.len() - i,
        {
            proof {
                let upto = self.unsignaled@.subrange(0, i + 1);
                assert(upto.drop_last() =~= self.unsignaled@.subrange(0, i as int));
            }
            if self.unsignaled[i] {
                count += 1;
            }
            i += 1;
        }
        proof {
            assert(self.unsignaled@.subrange(0, i as int) =~= self.unsignaled@);
            lemma_count_set_bound(self.unsignaled@);
        }
        count
    }

    /// The semaphores of all slots, in order.
    pub fn semaphore_handles(&self) -> (handles: Vec<u64>)
        ensures
            handles@ == slot_semaphores(self.slots()),
    {
        let mut handles: Vec<u64> = Vec::new();
        let mut i: usize = 0;
        while i < self.slots.len()
            invariant
                0 <= i <= self.slots@.len(),
                handles@ == slot_semaphores(self.slots@.take(i as int)),
            decreases self.slots@.len() - i,
        {
            let slot = self.slots[i];
            handles.push(slot.image_available);
            handles.push(slot.render_finished);
            i += 1;
            proof {
                let wanted = slot_semaphores(self.slots@.take(i as int));
                assert(handles@.len() == wanted.len());
                assert forall|k: int| 0 <= k < wanted.len() implies handles@[k] == wanted[k] by {
                    if k < 2 * (i - 1) {
                        assert(handles@[k] == slot_semaphores(self.slots@.take(i - 1))[k]);
                        assert(self.slots@.take(i - 1)[k / 2] == self.slots@.take(i as int)[k / 2]);
                    }
                }
                assert(handles@ =~= wanted);
            }
        }
        assert(self.slots@.take(i as int) =~= self.slots@);
        handles
    }

    /// The fences of all slots, in order.
    pub fn fence_handles(&self) -> (handles: Vec<u64>)
        ensures
            handles@ == slot_fences(self.slots()),
    {
        let mut handles: Vec<u64> = Vec::new();
        let mut i: usize = 0;
        while i < self.slots.len()
            invariant
                0 <= i <= self.slots@.len(),
                handles@ == slot_fences(self.slots@.take(i as int)),
            decreases self.slots@.len() - i,
        {
            handles.push(self.slots[i].in_flight_fence);
            i += 1;
            assert(handles@ =~= slot_fences(self.slots@.take(i as int)));
        }
        assert(self.slots@.take(i as int) =~= self.slots@);
        handles
    }

    /// Moves on to the next slot, wrapping round after the last. What is
    /// known about the fences stays as it is.
    pub fn advance(&mut self)
        requires
            old(self).wf(),
        ensures
            final(self).wf(),
            final(self).index() == next_index(old(self).index(), old(self).frames()),
            final(self).index() == ((old(self).index() + 1) as int) % (old(self).frames() as int),
            final(self).slots() == old(self).slots(),
            final(self).unsignaled() == old(self).unsignaled(),
            final(self).submissions() == old(self).submissions(),
            final(self).completions() == old(self).completions(),
    {
        proof {
            lemma_rotation(self.current as nat, self.slots@.len(), 1);
            assert(index_after(self.current as nat, self.slots@.len(), 1) == next_index(
                index_after(self.current as nat, self.slots@.len(), 0),
                self.slots@.len(),
            ));
        }
        let frames: usize = self.slots.len();
        if self.current + 1 < frames {
            self.current = self.current + 1;
        } else {
            self.current = 0;
        }
    }

    /// Takes note that a wait on the fence of the current slot has returned:
    /// if the slot was in flight, its completion has now been observed.
    pub fn fence_waited(&mut self)
        requires
            old(self).wf(),
        ensures
            final(self).wf(),
            final(self).index() == old(self).index(),
            final(self).slots() == old(self).slots(),
            final(self).unsignaled() == old(self).unsignaled().update(
                old(self).index() as int,
                false,
            ),
            final(self).submissions() == old(self).submissions(),
            final(self).completions() == old(self).completions() + (if old(self).unsignaled()[old(
                self,
            ).index() as int] { 1nat } else { 0nat }),
    {
        proof {
            lemma_count_set_update(self.unsignaled@, self.current as int, false);
        }
        if self.unsignaled[self.current] {
            self.unsignaled.set(self.current, false);
            self.completed = Ghost((self.completed@ + 1) as nat);
        } else {
            assert(self.unsignaled@.update(self.current as int, false) =~= self.unsignaled@);
        }
    }

    /// Takes note that work signalling the fence of the current slot has been
    /// submitted. A slot that is still in flight cannot take another
    /// submission: then nothing changes and the answer is `false`.
    pub fn mark_submitted(&mut self) -> (accepted: bool)
        requires
            old(self).wf(),
        ensures
            final(self).wf(),
            accepted == !old(self).unsignaled()[old(self).index() as int],
            final(self).index() == old(self).index(),
            final(self).slots() == old(self).slots(),
            final(self).unsignaled() == old(self).unsignaled().update(
                old(self).index() as int,
                true,
            ),
            final(self).completions() == old(self).completions(),
            final(self).submissions() == old(self).submissions() + (if accepted { 1nat } else {
                0nat
            }),
    {
        proof {
            lemma_count_set_update(self.unsignaled@, self.current as int, true);
        }
        if self.unsignaled[self.current] {
            assert(self.unsignaled@.update(self.current as int, true) =~= self.unsignaled@);
            false
        } else {
            self.unsignaled.set(self.current, true);
            self.submitted = Ghost((self.submitted@ + 1) as nat);
            true
        }
    }
}

} // verus!
