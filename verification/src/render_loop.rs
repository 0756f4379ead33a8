//! The render loop as a state machine.
//!
//! The loop never touches the GPU itself. In every state it owes its driver
//! one action; the driver carries the action out and reports back with an
//! event, on which the loop moves to its next state. Window events
//! (a resize, a request to close) are reported whenever they arrive.
use vstd::prelude::*;
use crate::codes::{
    color_output_stage, success_code, RESULT_ERROR_OUT_OF_DATE, RESULT_SUBOPTIMAL, RESULT_SUCCESS,
    STAGE_COLOR_ATTACHMENT_OUTPUT,
};
use crate::generation::{generation_teardown, lemma_generation_teardown_order, ChainGeneration};
use crate::recorder::{record, recorded, Recording};
use crate::queue_family::QueueFamilyIndices;
use crate::surface::{Extent, SwapChainSupportDetails};
use crate::swapchain::{
    acquire_outcome, build_outcome, chosen_parameters, classify_acquire, classify_present,
    present_outcome, AcquireOutcome, BuildError, PresentOutcome, SwapchainParameters,
};
use crate::sync::{
    count_set, lemma_count_set_bound, lemma_count_set_update, next_index, slot_fences,
    slot_semaphores, FrameSlot, FrameSynchronizer,
};
use crate::teardown::{
    leaf_to_root, lemma_leaf_to_root_concat, lemma_shutdown_leaf_to_root, shutdown_sequence,
    shutdown_steps, DestroyStep,
};

verus! {

/// How long an acquire may wait for an image, in nanoseconds: one second.
/// An acquire that runs out of time reports so, which ends the loop.
pub const ACQUIRE_TIMEOUT_NS: u64 = 1_000_000_000;

/// Why the loop gave up, with the raw code that the failed step reported.
#[derive(Clone, Copy, Debug, PartialEq, Eq, Structural)]
pub enum LoopError {
    FenceWait(i32),
    Acquire(i32),
    /// An image was acquired whose index no framebuffer answers to.
    UnknownImage(u32),
    Record(i32),
    Submit(i32),
    Present(i32),
    Rebuild(i32),
    Drain(i32),
}

/// Where the loop stands.
#[derive(Clone, Copy, Debug, PartialEq, Eq, Structural)]
pub enum Phase {
    /// Between ticks: waiting for the fence of the current slot.
    Idle,
    /// Waiting for the next image of the chain.
    Acquiring,
    /// The commands of the frame are being recorded.
    Recording { image_index: u32 },
    /// The recorded commands are being submitted.
    Submitting { image_index: u32 },
    /// The image is being handed over for display.
    Presenting { image_index: u32 },
    /// The device is drained and the chain generation replaced.
    Rebuilding,
    /// The device is drained before everything is torn down.
    Draining,
    /// The loop has ended on request.
    Stopped,
    /// The loop has ended on an error.
    Failed(LoopError),
}

/// What the driver reports to the loop.
pub enum Event {
    /// The wait on the fence of the current slot has returned.
    FenceWaited { code: i32 },
    /// The attempt to acquire an image has returned.
    Acquired { code: i32, image_index: u32 },
    /// The fence was reset and the commands were recorded, or not.
    Recorded { code: i32 },
    /// The submission has returned.
    Submitted { code: i32 },
    /// The attempt to present has returned.
    Presented { code: i32 },
    /// The old generation is gone and this one has been built in its place.
    Rebuilt(ChainGeneration),
    /// The generation could not be replaced.
    RebuildFailed { code: i32 },
    /// The window has a new size.
    Resized { width: u32, height: u32 },
    /// The window is to be closed.
    CloseRequested,
    /// The wait for the device to go idle has returned.
    Drained { code: i32 },
}

/// What the loop asks of its driver. Every primitive is named by its raw
/// handle and by the part it plays.
#[derive(Clone, Copy, Debug, PartialEq, Eq, Structural)]
pub enum Action {
    /// Wait, without a time limit, for the fence.
    WaitFence { fence: u64 },
    /// Acquire the next image within the given time in nanoseconds; the
    /// semaphore `signal` is signalled when the image may be drawn into.
    Acquire { signal: u64, timeout: u64 },
    /// Reset the fence, then record the frame for the image into the command
    /// buffer.
    Record { fence: u64, command_buffer: u64, image_index: u32 },
    /// Submit the command buffer to the graphics queue: the work waits for
    /// the semaphore `wait` at the pipeline stages `wait_stage`, signals the
    /// semaphore `signal` when it is done, and signals the fence on
    /// completion.
    Submit { wait: u64, wait_stage: u32, command_buffer: u64, signal: u64, fence: u64 },
    /// Present the image once the semaphore `wait` is signalled.
    Present { wait: u64, image_index: u32 },
    /// Wait for the device to go idle, destroy the current generation and
    /// build the next one for the given extent.
    Rebuild { extent: Extent },
    /// Wait for the device to go idle.
    Drain,
    /// Tear everything down and leave.
    Stop,
    /// Hand the error to the caller and leave.
    Fail(LoopError),
}

/// The state of the loop as a mathematical value.
pub struct LoopState {
    pub phase: Phase,
    /// Index of the slot that the current tick uses.
    pub frame_index: nat,
    pub slots: Seq<FrameSlot>,
    /// For each slot, whether its fence is unsignaled.
    pub unsignaled: Seq<bool>,
    /// Submissions issued so far.
    pub submissions: nat,
    /// Completions observed through a fence wait so far.
    pub completions: nat,
    /// Number of images of the current generation.
    pub image_count: nat,
    /// The extent that the next rebuild asks for.
    pub target_extent: Extent,
    /// The latest resize that no rebuild has taken up yet.
    pub pending_resize: Option<Extent>,
    /// Whether the chain was reported suboptimal during this tick.
    pub rebuild_due: bool,
}

impl LoopState {
    /// The number of slots.
    pub open spec fn frames(self) -> nat {
        self.slots.len()
    }

    /// How many slots are in flight.
    pub open spec fn in_flight(self) -> nat {
        count_set(self.unsignaled)
    }

    /// Whether the loop has ended.
    pub open spec fn ended(self) -> bool {
        self.phase is Stopped || self.phase is Failed
    }

    /// What holds of every state that the loop can reach.
    pub open spec fn wf(self) -> bool {
        &&& self.frames() > 0
        &&& self.unsignaled.len() == self.frames()
        &&& self.frame_index < self.frames()
        &&& self.completions <= self.submissions
        &&& self.in_flight() == self.submissions - self.completions
        &&& (self.phase is Acquiring || self.phase is Recording || self.phase is Submitting)
            ==> !self.unsignaled[self.frame_index as int]
        &&& match self.phase {
            Phase::Recording { image_index } => image_index < self.image_count,
            Phase::Submitting { image_index } => image_index < self.image_count,
            Phase::Presenting { image_index } => image_index < self.image_count,
            _ => true,
        }
    }

    /// The slot that the current tick uses.
    pub open spec fn slot(self) -> FrameSlot {
        self.slots[self.frame_index as int]
    }

    /// The state with another phase.
    pub open spec fn at(self, phase: Phase) -> LoopState {
        LoopState { phase, ..self }
    }

    /// The state on entering a rebuild: a pending resize becomes the target
    /// extent, and nothing asks for a rebuild any more.
    pub open spec fn rebuilding(self) -> LoopState {
        LoopState {
            phase: Phase::Rebuilding,
            target_extent: match self.pending_resize {
                Some(extent) => extent,
                None => self.target_extent,
            },
            pending_resize: None,
            rebuild_due: false,
            ..self
        }
    }

    /// The state at the end of a tick whose present returned without a fatal
    /// error: the frame index has moved on, and the loop rebuilds if the
    /// present asked for it, if the chain was suboptimal or if a resize is
    /// pending.
    pub open spec fn tick_done(self, retry: bool) -> LoopState {
        let moved = LoopState {
            frame_index: next_index(self.frame_index, self.frames()),
            ..self
        };
        if retry || self.rebuild_due || self.pending_resize is Some {
            moved.rebuilding()
        } else {
            moved.at(Phase::Idle)
        }
    }
}

/// The state that follows `state` on `event`.
///
/// An event that does not answer the action owed in `state` changes nothing.
pub open spec fn next_state(state: LoopState, event: Event) -> LoopState {
    if state.ended() {
        state
    } else {
        match event {
            Event::Resized { width, height } => LoopState {
                pending_resize: Some(Extent { width, height }),
                ..state
            },
            Event::CloseRequested => state.at(Phase::Draining),
            Event::FenceWaited { code } => if state.phase is Idle {
                if code == RESULT_SUCCESS {
                    LoopState {
                        phase: Phase::Acquiring,
                        unsignaled: state.unsignaled.update(state.frame_index as int, false),
                        completions: state.completions + (if state.unsignaled[state.frame_index as int] {
                            1nat
                        } else {
                            0nat
                        }),
                        ..state
                    }
                } else {
                    state.at(Phase::Failed(LoopError::FenceWait(code)))
                }
            } else {
                state
            },
            Event::Acquired { code, image_index } => if state.phase is Acquiring {
                match acquire_outcome(code, image_index) {
                    AcquireOutcome::Image { index, suboptimal } => if index < state.image_count {
                        LoopState {
                            phase: Phase::Recording { image_index: index },
                            rebuild_due: state.rebuild_due || suboptimal,
                            ..state
                        }
                    } else {
                        state.at(Phase::Failed(LoopError::UnknownImage(index)))
                    },
                    AcquireOutcome::Retry => state.rebuilding(),
                    AcquireOutcome::Fatal(code) => state.at(
                        Phase::Failed(LoopError::Acquire(code)),
                    ),
                }
            } else {
                state
            },
            Event::Recorded { code } => match state.phase {
                Phase::Recording { image_index } => if code == RESULT_SUCCESS {
                    state.at(Phase::Submitting { image_index })
                } else {
                    state.at(Phase::Failed(LoopError::Record(code)))
                },
                _ => state,
            },
            Event::Submitted { code } => match state.phase {
                Phase::Submitting { image_index } => if code == RESULT_SUCCESS {
                    LoopState {
                        phase: Phase::Presenting { image_index },
                        unsignaled: state.unsignaled.update(state.frame_index as int, true),
                        submissions: state.submissions + 1,
                        ..state
                    }
                } else {
                    state.at(Phase::Failed(LoopError::Submit(code)))
                },
                _ => state,
            },
            Event::Presented { code } => if state.phase is Presenting {
                match present_outcome(code) {
                    PresentOutcome::Presented => state.tick_done(false),
                    PresentOutcome::Retry => state.tick_done(true),
                    PresentOutcome::Fatal(code) => state.at(
                        Phase::Failed(LoopError::Present(code)),
                    ),
                }
            } else {
                state
            },
            Event::Rebuilt(generation) => if state.phase is Rebuilding {
                LoopState { phase: Phase::Idle, image_count: generation.image_count(), ..state }
            } else {
                state
            },
            Event::RebuildFailed { code } => if state.phase is Rebuilding {
                state.at(Phase::Failed(LoopError::Rebuild(code)))
            } else {
                state
            },
            Event::Drained { code } => if state.phase is Draining {
                if code == RESULT_SUCCESS {
                    state.at(Phase::Stopped)
                } else {
                    state.at(Phase::Failed(LoopError::Drain(code)))
                }
            } else {
                state
            },
        }
    }
}

/// The action that the loop owes its driver in `state`.
///
/// Within a tick the primitives of the current slot follow one another:
/// the fence is waited for before the acquire signals image-available, the
/// submission waits for image-available at the colour output stage and
/// signals render-finished and the fence, and the present waits for
/// render-finished.
pub open spec fn action_of(state: LoopState) -> Action {
    let slot = state.slot();
    match state.phase {
        Phase::Idle => Action::WaitFence { fence: slot.in_flight_fence },
        Phase::Acquiring => Action::Acquire {
            signal: slot.image_available,
            timeout: ACQUIRE_TIMEOUT_NS,
        },
        Phase::Recording { image_index } => Action::Record {
            fence: slot.in_flight_fence,
            command_buffer: slot.command_buffer,
            image_index,
        },
        Phase::Submitting { image_index } => Action::Submit {
            wait: slot.image_available,
            wait_stage: STAGE_COLOR_ATTACHMENT_OUTPUT,
            command_buffer: slot.command_buffer,
            signal: slot.render_finished,
            fence: slot.in_flight_fence,
        },
        Phase::Presenting { image_index } => Action::Present {
            wait: slot.render_finished,
            image_index,
        },
        Phase::Rebuilding => Action::Rebuild { extent: state.target_extent },
        Phase::Draining => Action::Drain,
        Phase::Stopped => Action::Stop,
        Phase::Failed(error) => Action::Fail(error),
    }
}

/// The generation that the loop owns after `event`, given the one it owned
/// in `state`.
pub open spec fn next_generation(
    state: LoopState,
    owned: ChainGeneration,
    event: Event,
) -> ChainGeneration {
    match event {
        Event::Rebuilt(generation) => if state.phase is Rebuilding {
            generation
        } else {
            owned
        },
        _ => owned,
    }
}

/// The five reports of a tick in which nothing goes wrong and the image with
/// the given index is acquired.
pub open spec fn normal_tick(state: LoopState, image_index: u32) -> LoopState {
    let waited = next_state(state, Event::FenceWaited { code: RESULT_SUCCESS });
    let acquired = next_state(waited, Event::Acquired { code: RESULT_SUCCESS, image_index });
    let recorded = next_state(acquired, Event::Recorded { code: RESULT_SUCCESS });
    let submitted = next_state(recorded, Event::Submitted { code: RESULT_SUCCESS });
    next_state(submitted, Event::Presented { code: RESULT_SUCCESS })
}

/// The state after one normal tick for each of the given image indices.
pub open spec fn after_ticks(state: LoopState, images: Seq<u32>) -> LoopState
    decreases images.len(),
{
    if images.len() == 0 {
        state
    } else {
        normal_tick(after_ticks(state, images.drop_last()), images.last())
    }
}

/// Whether the loop is between ticks with nothing that asks for a rebuild.
pub open spec fn settled(state: LoopState) -> bool {
    &&& state.wf()
    &&& state.phase is Idle
    &&& state.pending_resize is None
    &&& !state.rebuild_due
}

/// Every event leads from a reachable state to a reachable state.
pub proof fn lemma_step_preserves_wf(state: LoopState, event: Event)
    requires
        state.wf(),
    ensures
        next_state(state, event).wf(),
        next_state(state, event).slots == state.slots,
{
    let index = state.frame_index as int;
    lemma_count_set_update(state.unsignaled, index, false);
    lemma_count_set_update(state.unsignaled, index, true);
}

/// Fence discipline: in every reachable state, the slots whose fence is
/// unsignaled are no more than there are slots, and exactly as many as the
/// submissions issued minus the completions observed.
pub proof fn lemma_fence_discipline(state: LoopState)
    requires
        state.wf(),
    ensures
        state.in_flight() <= state.frames(),
        state.in_flight() == state.submissions - state.completions,
{
    lemma_count_set_bound(state.unsignaled);
}

/// A tick in which nothing goes wrong passes through acquiring, recording,
/// submitting and presenting, never rebuilds, adds one submission, moves the
/// frame index on by one and ends between ticks.
pub proof fn lemma_normal_tick(state: LoopState, image_index: u32)
    requires
        settled(state),
        image_index < state.image_count,
    ensures
        ({
            let waited = next_state(state, Event::FenceWaited { code: RESULT_SUCCESS });
            let acquired = next_state(
                waited,
                Event::Acquired { code: RESULT_SUCCESS, image_index },
            );
            let recorded = next_state(acquired, Event::Recorded { code: RESULT_SUCCESS });
            let submitted = next_state(recorded, Event::Submitted { code: RESULT_SUCCESS });
            let done = normal_tick(state, image_index);
            &&& waited.phase == Phase::Acquiring
            &&& acquired.phase == Phase::Recording { image_index }
            &&& recorded.phase == Phase::Submitting { image_index }
            &&& submitted.phase == Phase::Presenting { image_index }
            &&& settled(done)
            &&& done.frame_index == next_index(state.frame_index, state.frames())
            &&& done.slots == state.slots
            &&& done.image_count == state.image_count
            &&& done.target_extent == state.target_extent
            &&& done.submissions == state.submissions + 1
        }),
{
    let index = state.frame_index as int;
    let waited = next_state(state, Event::FenceWaited { code: RESULT_SUCCESS });
    lemma_step_preserves_wf(state, Event::FenceWaited { code: RESULT_SUCCESS });
    let acquired = next_state(waited, Event::Acquired { code: RESULT_SUCCESS, image_index });
    lemma_step_preserves_wf(waited, Event::Acquired { code: RESULT_SUCCESS, image_index });
    let recorded = next_state(acquired, Event::Recorded { code: RESULT_SUCCESS });
    lemma_step_preserves_wf(acquired, Event::Recorded { code: RESULT_SUCCESS });
    let submitted = next_state(recorded, Event::Submitted { code: RESULT_SUCCESS });
    lemma_step_preserves_wf(recorded, Event::Submitted { code: RESULT_SUCCESS });
    lemma_step_preserves_wf(submitted, Event::Presented { code: RESULT_SUCCESS });
}

/// Frame-slot rotation: after any number of ticks in which nothing goes
/// wrong, the frame index is the index at the start plus the number of ticks,
/// modulo the number of slots. No tick of them rebuilds.
pub proof fn lemma_rotation_over_ticks(state: LoopState, images: Seq<u32>)
    requires
        settled(state),
        forall|i: int| 0 <= i < images.len() ==> images[i] < state.image_count,
    ensures
        settled(after_ticks(state, images)),
        after_ticks(state, images).frame_index == ((state.frame_index + images.len()) as int) % (
        state.frames() as int),
        after_ticks(state, images).slots == state.slots,
        after_ticks(state, images).image_count == state.image_count,
        after_ticks(state, images).submissions == state.submissions + images.len(),
    decreases images.len(),
{
    let frames = state.frames() as int;
    if images.len() == 0 {
        assert((state.frame_index as int) % frames == state.frame_index) by (nonlinear_arith)
            requires
                0 <= state.frame_index < frames,
        ;
    } else {
        let before = after_ticks(state, images.drop_last());
        lemma_rotation_over_ticks(state, images.drop_last());
        lemma_normal_tick(before, images.last());
        let sum: int = state.frame_index + images.len() - 1;
        let at = before.frame_index as int;
        if at + 1 < frames {
            assert((sum + 1) % frames == at + 1) by (nonlinear_arith)
                requires
                    frames > 0,
                    at == sum % frames,
                    at + 1 < frames,
                    sum >= 0,
            ;
        } else {
            assert((sum + 1) % frames == 0) by (nonlinear_arith)
                requires
                    frames > 0,
                    at == sum % frames,
                    at + 1 == frames,
                    sum >= 0,
            ;
        }
    }
}

/// An acquire that reports the chain out of date leads straight into the
/// rebuild: nothing is recorded or submitted, and the frame index stays
/// where it is.
pub proof fn lemma_out_of_date_acquire_rebuilds(state: LoopState, image_index: u32)
    requires
        state.wf(),
        state.phase is Acquiring,
    ensures
        ({
            let next = next_state(
                state,
                Event::Acquired { code: RESULT_ERROR_OUT_OF_DATE, image_index },
            );
            &&& next.phase is Rebuilding
            &&& next.frame_index == state.frame_index
            &&& next.submissions == state.submissions
            &&& next.unsignaled == state.unsignaled
            &&& action_of(next) is Rebuild
        }),
{
}

/// A present that reports the chain suboptimal or out of date still ends the
/// tick: the frame index moves on, and the rebuild comes before the next
/// acquire.
pub proof fn lemma_retried_present_advances_then_rebuilds(state: LoopState, code: i32)
    requires
        state.wf(),
        state.phase is Presenting,
        code == RESULT_SUBOPTIMAL || code == RESULT_ERROR_OUT_OF_DATE,
    ensures
        ({
            let next = next_state(state, Event::Presented { code });
            &&& next.phase is Rebuilding
            &&& next.frame_index == next_index(state.frame_index, state.frames())
            &&& action_of(next) is Rebuild
            &&& !next.rebuild_due
            &&& next.pending_resize is None
        }),
{
}

/// A resize that arrives between ticks is taken up at the end of the next
/// tick: the tick runs as usual, moves the frame index on and then enters
/// the rebuild, which asks for the new size.
pub proof fn lemma_resize_is_taken_up(state: LoopState, width: u32, height: u32, image_index: u32)
    requires
        settled(state),
        image_index < state.image_count,
    ensures
        ({
            let resized = next_state(state, Event::Resized { width, height });
            let done = normal_tick(resized, image_index);
            &&& resized.phase is Idle
            &&& resized.pending_resize == Some(Extent { width, height })
            &&& done.phase is Rebuilding
            &&& done.frame_index == next_index(state.frame_index, state.frames())
            &&& done.pending_resize is None
            &&& done.target_extent == Extent { width, height }
            &&& action_of(done) == Action::Rebuild { extent: Extent { width, height } }
        }),
{
    let index = state.frame_index as int;
    lemma_count_set_update(state.unsignaled, index, false);
    lemma_count_set_update(state.unsignaled, index, true);
}

/// Of several resizes the latest counts.
pub proof fn lemma_resizes_coalesce(
    state: LoopState,
    first: Extent,
    second: Extent,
)
    requires
        !state.ended(),
    ensures
        next_state(
            next_state(state, Event::Resized { width: first.width, height: first.height }),
            Event::Resized { width: second.width, height: second.height },
        ) == next_state(state, Event::Resized { width: second.width, height: second.height }),
{
}

/// Without a resize, no event changes the extent that a rebuild asks for:
/// a second rebuild asks for what the first one asked for.
pub proof fn lemma_target_extent_is_kept(state: LoopState, event: Event)
    requires
        state.pending_resize is None,
        !(event is Resized),
    ensures
        next_state(state, event).target_extent == state.target_extent,
        next_state(state, event).pending_resize is None,
{
}

/// The state after a run of events, taken in order.
pub open spec fn after_events(state: LoopState, events: Seq<Event>) -> LoopState
    decreases events.len(),
{
    if events.len() == 0 {
        state
    } else {
        next_state(after_events(state, events.drop_last()), events.last())
    }
}

/// Whatever the driver reports and in whatever order, the loop stays in a
/// reachable state, where the fence discipline holds: the slots in flight
/// are no more than there are slots, and exactly as many as the submissions
/// issued minus the completions observed.
pub proof fn lemma_every_run_keeps_discipline(state: LoopState, events: Seq<Event>)
    requires
        state.wf(),
    ensures
        after_events(state, events).wf(),
        after_events(state, events).slots == state.slots,
        after_events(state, events).in_flight() <= state.frames(),
        after_events(state, events).in_flight() == after_events(state, events).submissions
            - after_events(state, events).completions,
    decreases events.len(),
{
    if events.len() > 0 {
        lemma_every_run_keeps_discipline(state, events.drop_last());
        lemma_step_preserves_wf(after_events(state, events.drop_last()), events.last());
    }
    lemma_fence_discipline(after_events(state, events));
}

/// Rebuilding again asks for the same extent: over a run of events without
/// a resize, the extent that a rebuild asks for stays what it was.
pub proof fn lemma_rebuild_asks_the_same_again(state: LoopState, events: Seq<Event>)
    requires
        state.pending_resize is None,
        forall|i: int| 0 <= i < events.len() ==> !(#[trigger] events[i] is Resized),
    ensures
        after_events(state, events).target_extent == state.target_extent,
        after_events(state, events).pending_resize is None,
        after_events(state, events).phase is Rebuilding ==> action_of(
            after_events(state, events),
        ) == (Action::Rebuild { extent: state.target_extent }),
    decreases events.len(),
{
    if events.len() > 0 {
        lemma_rebuild_asks_the_same_again(state, events.drop_last());
        lemma_target_extent_is_kept(after_events(state, events.drop_last()), events.last());
    }
}

/// A loop that has ended stays as it is.
pub proof fn lemma_ended_is_final(state: LoopState, event: Event)
    requires
        state.ended(),
    ensures
        next_state(state, event) == state,
{
}

/// Everything that is destroyed once the loop has ended: the generation it
/// owns, the primitives of its slots, then what the program as a whole owns.
pub open spec fn final_teardown(
    generation: ChainGeneration,
    slots: Seq<FrameSlot>,
    command_pool: u64,
    surface: u64,
    debug_messenger: Option<u64>,
) -> Seq<DestroyStep> {
    generation_teardown(generation.targets(), generation.manager()) + shutdown_steps(
        slot_semaphores(slots),
        slot_fences(slots),
        command_pool,
        surface,
        debug_messenger,
    )
}

/// The final teardown runs leaf to root.
pub proof fn lemma_final_teardown_order(
    generation: ChainGeneration,
    slots: Seq<FrameSlot>,
    command_pool: u64,
    surface: u64,
    debug_messenger: Option<u64>,
)
    ensures
        leaf_to_root(final_teardown(generation, slots, command_pool, surface, debug_messenger)),
{
    let first = generation_teardown(generation.targets(), generation.manager());
    let second = shutdown_steps(
        slot_semaphores(slots),
        slot_fences(slots),
        command_pool,
        surface,
        debug_messenger,
    );
    lemma_generation_teardown_order(generation.targets(), generation.manager());
    lemma_shutdown_leaf_to_root(
        slot_semaphores(slots),
        slot_fences(slots),
        command_pool,
        surface,
        debug_messenger,
    );
    assert forall|i: int, j: int| 0 <= i < first.len() && 0 <= j < second.len() implies (
    #[trigger] first[i]).depth() <= (#[trigger] second[j]).depth() by {
        assert(first[i].depth() <= 5);
        assert(second[j].depth() >= 6);
    }
    lemma_leaf_to_root_concat(first, second);
}

/// The render loop: owner of the frame slots and of the current chain
/// generation, and keeper of the frame index.
pub struct RenderLoop {
    sync: FrameSynchronizer,
    generation: ChainGeneration,
    phase: Phase,
    target_extent: Extent,
    pending_resize: Option<Extent>,
    rebuild_due: bool,
}

impl View for RenderLoop {
    type V = LoopState;

    closed spec fn view(&self) -> LoopState {
        LoopState {
            phase: self.phase,
            frame_index: self.sync.index(),
            slots: self.sync.slots(),
            unsignaled: self.sync.unsignaled(),
            submissions: self.sync.submissions(),
            completions: self.sync.completions(),
            image_count: self.generation.image_count(),
            target_extent: self.target_extent,
            pending_resize: self.pending_resize,
            rebuild_due: self.rebuild_due,
        }
    }
}

impl RenderLoop {
    /// The chain generation that the loop owns.
    pub closed spec fn generation(&self) -> ChainGeneration {
        self.generation
    }

    /// The invariant of the loop.
    pub closed spec fn wf(&self) -> bool {
        self.sync.wf() && self@.wf()
    }

    /// A loop that meets its invariant is in a reachable state, and counts
    /// the images of the generation it owns.
    pub proof fn lemma_reachable(&self)
        requires
            self.wf(),
        ensures
            self@.wf(),
            self@.image_count == self.generation().image_count(),
    {
    }

    /// Starts a loop over the slots and the first chain generation, both
    /// created at startup, for a window of the given extent. The loop starts
    /// between ticks at slot 0 with nothing in flight.
    ///
    /// There is no loop without a slot.
    pub fn new(slots: Vec<FrameSlot>, generation: ChainGeneration, extent: Extent) -> (made: Option<
        RenderLoop,
    >)
        ensures
            made is Some <==> slots@.len() > 0,
            made is Some ==> {
                let started = made->0;
                &&& started.wf()
                &&& started.generation() == generation
                &&& started@ == (LoopState {
                    phase: Phase::Idle,
                    frame_index: 0,
                    slots: slots@,
                    unsignaled: Seq::new(slots@.len(), |i: int| false),
                    submissions: 0,
                    completions: 0,
                    image_count: generation.image_count(),
                    target_extent: extent,
                    pending_resize: None,
                    rebuild_due: false,
                })
            },
    {
        match FrameSynchronizer::new(slots) {
            Some(sync) => {
                Some(
                    RenderLoop {
                        sync,
                        generation,
                        phase: Phase::Idle,
                        target_extent: extent,
                        pending_resize: None,
                        rebuild_due: false,
                    },
                )
            },
            None => None,
        }
    }

    /// Where the loop stands.
    pub fn phase(&self) -> (phase: Phase)
        ensures
            phase == self@.phase,
    {
        self.phase
    }

    /// The index of the slot that the current tick uses.
    pub fn current_frame_index(&self) -> (index: usize)
        requires
            self.wf(),
        ensures
            index == self@.frame_index,
            index < self@.frames(),
    {
        self.sync.current_frame_index()
    }

    /// The slot that the current tick uses.
    pub fn current_slot(&self) -> (slot: FrameSlot)
        requires
            self.wf(),
        ensures
            slot == self@.slot(),
    {
        self.sync.current_slot()
    }

    /// How many slots are in flight.
    pub fn frames_in_flight(&self) -> (count: usize)
        requires
            self.wf(),
        ensures
            count == self@.in_flight(),
            count <= self@.frames(),
            count == self@.submissions - self@.completions,
    {
        self.sync.frames_in_flight()
    }

    /// The latest resize that no rebuild has taken up yet.
    pub fn pending_resize(&self) -> (pending: Option<Extent>)
        ensures
            pending == self@.pending_resize,
    {
        self.pending_resize
    }

    /// The extent that the next rebuild asks for, unless a resize is pending.
    pub fn target_extent(&self) -> (extent: Extent)
        ensures
            extent == self@.target_extent,
    {
        self.target_extent
    }

    /// The chain generation that the loop owns.
    pub fn chain_generation(&self) -> (generation: &ChainGeneration)
        ensures
            *generation == self.generation(),
    {
        &self.generation
    }

    /// The action that the loop owes its driver.
    pub fn pending_action(&self) -> (action: Action)
        requires
            self.wf(),
        ensures
            action == action_of(self@),
    {
        let slot = self.sync.current_slot();
        match self.phase {
            Phase::Idle => Action::WaitFence { fence: slot.in_flight_fence },
            Phase::Acquiring => Action::Acquire {
                signal: slot.image_available,
                timeout: ACQUIRE_TIMEOUT_NS,
            },
            Phase::Recording { image_index } => Action::Record {
                fence: slot.in_flight_fence,
                command_buffer: slot.command_buffer,
                image_index,
            },
            Phase::Submitting { image_index } => Action::Submit {
                wait: slot.image_available,
                wait_stage: color_output_stage(),
                command_buffer: slot.command_buffer,
                signal: slot.render_finished,
                fence: slot.in_flight_fence,
            },
            Phase::Presenting { image_index } => Action::Present {
                wait: slot.render_finished,
                image_index,
            },
            Phase::Rebuilding => Action::Rebuild { extent: self.target_extent },
            Phase::Draining => Action::Drain,
            Phase::Stopped => Action::Stop,
            Phase::Failed(error) => Action::Fail(error),
        }
    }

    /// The commands of the frame that is being recorded, for the command
    /// buffer of the current slot. There are none in any other phase.
    pub fn recording(&self) -> (recording: Option<Recording>)
        requires
            self.wf(),
        ensures
            recording is Some <==> self@.phase is Recording,
            recording is Some ==> {
                &&& recording->0.command_buffer == self@.slot().command_buffer
                &&& recorded(
                    self.generation().targets(),
                    self@.phase->Recording_image_index,
                ) is Some
                &&& recording->0.commands@ == recorded(
                    self.generation().targets(),
                    self@.phase->Recording_image_index,
                )->0
            },
    {
        match self.phase {
            Phase::Recording { image_index } => record(
                self.sync.current_slot().command_buffer,
                image_index,
                self.generation.frame_targets(),
            ),
            _ => None,
        }
    }

    /// Derives the parameters of the next chain from what the surface reports
    /// now, for the extent that the rebuild asks for. There is nothing to
    /// derive while the loop is not rebuilding.
    pub fn rebuild_parameters(
        &self,
        support: &SwapChainSupportDetails,
        indices: &QueueFamilyIndices,
    ) -> (derived: Option<Result<SwapchainParameters, BuildError>>)
        ensures
            derived is Some <==> self@.phase is Rebuilding,
            derived is Some ==> match build_outcome(
                support.formats@,
                support.capabilities,
                *indices,
            ) {
                Some(error) => derived->0 == Err::<SwapchainParameters, BuildError>(error),
                None => derived->0 == Ok::<SwapchainParameters, BuildError>(
                    chosen_parameters(
                        support.formats@,
                        support.present_modes@,
                        support.capabilities,
                        *indices,
                        self@.target_extent.width,
                        self@.target_extent.height,
                    ),
                ),
            },
    {
        match self.phase {
            Phase::Rebuilding => Some(
                SwapchainParameters::build(
                    support,
                    indices,
                    self.target_extent.width,
                    self.target_extent.height,
                ),
            ),
            _ => None,
        }
    }

    /// Lists what is destroyed once the loop has ended, in order: the chain
    /// generation, the primitives of the slots, the command pool, the device,
    /// the surface, the debug messenger where there is one, the instance.
    ///
    /// A loop that has not ended hands out nothing: it is asked to close
    /// first, which drains the device. After a failure the caller drains the
    /// device before it carries the steps out.
    pub fn teardown(&self, command_pool: u64, surface: u64, debug_messenger: Option<u64>) -> (steps:
        Option<Vec<DestroyStep>>)
        requires
            self.wf(),
        ensures
            steps is Some <==> self@.ended(),
            steps is Some ==> steps->0@ == final_teardown(
                self.generation(),
                self@.slots,
                command_pool,
                surface,
                debug_messenger,
            ) && leaf_to_root(steps->0@),
    {
        let ended = match self.phase {
            Phase::Stopped => true,
            Phase::Failed(_) => true,
            _ => false,
        };
        if !ended {
            return None;
        }
        let mut steps = self.generation.teardown();
        let semaphores = self.sync.semaphore_handles();
        let fences = self.sync.fence_handles();
        let mut rest = shutdown_sequence(
            &semaphores,
            &fences,
            command_pool,
            surface,
            debug_messenger,
        );
        steps.append(&mut rest);
        proof {
            lemma_final_teardown_order(
                self.generation,
                self.sync.slots(),
                command_pool,
                surface,
                debug_messenger,
            );
        }
        Some(steps)
    }

    /// Enters the rebuild.
    fn enter_rebuild(&mut self)
        ensures
            final(self).sync == old(self).sync,
            final(self).generation == old(self).generation,
            final(self).phase == Phase::Rebuilding,
            final(self).target_extent == (match old(self).pending_resize {
                Some(extent) => extent,
                None => old(self).target_extent,
            }),
            final(self).pending_resize is None,
            !final(self).rebuild_due,
    {
        self.phase = Phase::Rebuilding;
        match self.pending_resize {
            Some(extent) => {
                self.target_extent = extent;
            },
            None => {},
        }
        self.pending_resize = None;
        self.rebuild_due = false;
    }

    /// Takes a report of the driver, moves the loop to its next state and
    /// answers with the action that the loop owes in that state.
    ///
    /// A report that does not answer the action owed changes nothing, and a
    /// loop that has ended stays as it is.
    pub fn step(&mut self, event: Event) -> (action: Action)
        requires
            old(self).wf(),
        ensures
            final(self).wf(),
            final(self)@ == next_state(old(self)@, event),
            final(self).generation() == next_generation(old(self)@, old(self).generation(), event),
            action == action_of(final(self)@),
    {
        let phase = self.phase;
        let ended = match phase {
            Phase::Stopped => true,
            Phase::Failed(_) => true,
            _ => false,
        };
        if !ended {
            match event {
                Event::Resized { width, height } => {
                    self.pending_resize = Some(Extent { width, height });
                },
                Event::CloseRequested => {
                    self.phase = Phase::Draining;
                },
                Event::FenceWaited { code } => {
                    match phase {
                        Phase::Idle => {
                            if code == success_code() {
                                self.sync.fence_waited();
                                self.phase = Phase::Acquiring;
                            } else {
                                self.phase = Phase::Failed(LoopError::FenceWait(code));
                            }
                        },
                        _ => {},
                    }
                },
                Event::Acquired { code, image_index } => {
                    match phase {
                        Phase::Acquiring => {
                            match classify_acquire(code, image_index) {
                                AcquireOutcome::Image { index, suboptimal } => {
                                    let known = self.generation.frame_targets().framebuffer_for(
                                        index,
                                    ).is_some();
                                    if known {
                                        self.phase = Phase::Recording { image_index: index };
                                        self.rebuild_due = self.rebuild_due || suboptimal;
                                    } else {
                                        self.phase = Phase::Failed(LoopError::UnknownImage(index));
                                    }
                                },
                                AcquireOutcome::Retry => {
                                    self.enter_rebuild();
                                },
                                AcquireOutcome::Fatal(code) => {
                                    self.phase = Phase::Failed(LoopError::Acquire(code));
                                },
                            }
                        },
                        _ => {},
                    }
                },
                Event::Recorded { code } => {
                    match phase {
                        Phase::Recording { image_index } => {
                            if code == success_code() {
                                self.phase = Phase::Submitting { image_index };
                            } else {
                                self.phase = Phase::Failed(LoopError::Record(code));
                            }
                        },
                        _ => {},
                    }
                },
                Event::Submitted { code } => {
                    match phase {
                        Phase::Submitting { image_index } => {
                            if code == success_code() {
                                let accepted = self.sync.mark_submitted();
                                assert(accepted);
                                self.phase = Phase::Presenting { image_index };
                            } else {
                                self.phase = Phase::Failed(LoopError::Submit(code));
                            }
                        },
                        _ => {},
                    }
                },
                Event::Presented { code } => {
                    match phase {
                        Phase::Presenting { image_index } => {
                            match classify_present(code) {
                                PresentOutcome::Presented => {
                                    self.sync.advance();
                                    if self.rebuild_due || self.pending_resize.is_some() {
                                        self.enter_rebuild();
                                    } else {
                                        self.phase = Phase::Idle;
                                    }
                                },
                                PresentOutcome::Retry => {
                                    self.sync.advance();
                                    self.enter_rebuild();
                                },
                                PresentOutcome::Fatal(code) => {
                                    self.phase = Phase::Failed(LoopError::Present(code));
                                },
                            }
                        },
                        _ => {},
                    }
                },
                Event::Rebuilt(generation) => {
                    match phase {
                        Phase::Rebuilding => {
                            self.generation = generation;
                            self.phase = Phase::Idle;
                        },
                        _ => {},
                    }
                },
                Event::RebuildFailed { code } => {
                    match phase {
                        Phase::Rebuilding => {
                            self.phase = Phase::Failed(LoopError::Rebuild(code));
                        },
                        _ => {},
                    }
                },
                Event::Drained { code } => {
                    match phase {
                        Phase::Draining => {
                            if code == success_code() {
                                self.phase = Phase::Stopped;
                            } else {
                                self.phase = Phase::Failed(LoopError::Drain(code));
                            }
                        },
                        _ => {},
                    }
                },
            }
        }
        proof {
            lemma_step_preserves_wf(old(self)@, event);
        }
        self.pending_action()
    }
}

} // verus!
