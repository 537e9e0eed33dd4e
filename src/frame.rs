use vstd::prelude::*;

verus! {

/// Number of frames that may be in flight at once: the size of the ring of
/// per-frame synchronization slots.
pub const FRAMES_IN_FLIGHT: u64 = 2;

/// The ring slot that the frame with counter value `counter` uses.
pub open spec fn slot_for(counter: int) -> int {
    counter % (FRAMES_IN_FLIGHT as int)
}

/// The ring slot used by the frame with the given counter value.
pub fn slot_of(frame_counter: u64) -> (r: usize)
    ensures
        r as int == slot_for(frame_counter as int),
        r < FRAMES_IN_FLIGHT,
{
    (frame_counter % FRAMES_IN_FLIGHT) as usize
}

/// Where the orchestrator stands within the current frame.
#[derive(Clone, Copy, Debug, PartialEq, Eq, Structural)]
pub enum Phase {
    /// Between frames.
    Idle,
    /// Waiting on the render fence of the current slot.
    Waiting,
    /// Asking the image chain for the next image.
    Acquiring,
    /// Recording the command buffer that draws into `image`.
    Recording { image: u32 },
    /// Submitting the recorded commands.
    Submitting { image: u32 },
    /// Presenting `image`.
    Presenting { image: u32 },
    /// Rebuilding the image chain after it went out of date.
    Rebuilding,
}

/// What the host reports back after carrying out an action.
#[derive(Clone, Copy, Debug, PartialEq, Eq, Structural)]
pub enum FrameEvent {
    /// The host asks for a new frame.
    Tick,
    /// The awaited render fence is signaled.
    FenceSignaled,
    /// The image chain handed out the image with this index.
    ImageAcquired(u32),
    /// Acquire or present reported that the chain no longer matches the surface.
    OutOfDate,
    /// The command buffer is recorded.
    Recorded,
    /// The command buffer was submitted together with the slot's fence.
    Submitted,
    /// The image was queued for presentation.
    Presented,
    /// A new image chain with this many images replaced the old one.
    ChainRebuilt(u32),
}

/// What the host must do next.
#[derive(Clone, Copy, Debug, PartialEq, Eq, Structural)]
pub enum FrameAction {
    /// Block on the render fence of `slot`. `outstanding` tells whether a
    /// submission may still hold it; when it is false the fence is already
    /// signaled and the wait returns at once.
    WaitFence { slot: usize, outstanding: bool },
    /// Acquire the next image, signaling the image-available semaphore of `slot`.
    Acquire { slot: usize },
    /// Reset the fence of `slot`, then reset and record its command buffer:
    /// a transition of `image` to the general layout, the fill, and a
    /// transition to the presentable layout. The fence is reset only once an
    /// image is in hand, so that an out-of-date acquire leaves it signaled
    /// and the retried frame does not wait on a fence nothing will signal.
    Record { slot: usize, image: u32 },
    /// Submit the command buffer of `slot`, waiting on its image-available
    /// semaphore, signaling its render-complete semaphore and its fence.
    Submit { slot: usize },
    /// Present `image`, gated on the render-complete semaphore of `slot`.
    Present { slot: usize, image: u32 },
    /// Wait for the device to go idle and rebuild the image chain at the
    /// current surface extent, keeping the ring of slots.
    RebuildChain,
    /// The frame is complete.
    FrameDone,
    /// The chain was rebuilt; the next tick starts the frame again.
    Resume,
}

/// A report that does not fit the state the orchestrator is in. These are
/// defects in the host and must not be ignored.
#[derive(Clone, Copy, Debug, PartialEq, Eq, Structural)]
pub enum FrameFault {
    /// The event cannot happen in the current phase.
    UnexpectedEvent,
    /// The acquired image index is not an index of the chain.
    ImageOutOfRange,
    /// A counter reached the largest value it can hold.
    CounterExhausted,
}

/// The abstract state of a frame orchestrator.
pub struct FrameState {
    pub frame_counter: int,
    pub phase: Phase,
    /// For each slot, whether a submission holds its render fence that has
    /// not yet been seen signaled.
    pub in_flight: Seq<bool>,
    pub image_count: int,
    pub rebuilds: int,
}

impl FrameState {
    pub open spec fn wf(self) -> bool {
        &&& self.in_flight.len() == FRAMES_IN_FLIGHT
        &&& 0 <= self.frame_counter <= u64::MAX
        &&& 0 <= self.rebuilds <= u64::MAX
        &&& 0 <= self.image_count <= u32::MAX
        &&& (self.phase == Phase::Acquiring || self.phase is Recording || self.phase is Submitting)
            ==> !self.in_flight[self.slot()]
    }

    /// The slot of the frame in progress.
    pub open spec fn slot(self) -> int {
        slot_for(self.frame_counter)
    }
}

/// The per-frame protocol: wait, acquire, record, submit, present, advance.
pub open spec fn transition(s: FrameState, e: FrameEvent) -> Result<(FrameState, FrameAction), FrameFault> {
    let slot = s.slot();
    match s.phase {
        Phase::Idle => match e {
            FrameEvent::Tick => Ok(
                (
                    FrameState { phase: Phase::Waiting, ..s },
                    FrameAction::WaitFence { slot: slot as usize, outstanding: s.in_flight[slot] },
                ),
            ),
            _ => Err(FrameFault::UnexpectedEvent),
        },
        Phase::Waiting => match e {
            FrameEvent::FenceSignaled => Ok(
                (
                    FrameState {
                        phase: Phase::Acquiring,
                        in_flight: s.in_flight.update(slot, false),
                        ..s
                    },
                    FrameAction::Acquire { slot: slot as usize },
                ),
            ),
            _ => Err(FrameFault::UnexpectedEvent),
        },
        Phase::Acquiring => match e {
            FrameEvent::ImageAcquired(image) => if (image as int) < s.image_count {
                Ok(
                    (
                        FrameState { phase: Phase::Recording { image }, ..s },
                        FrameAction::Record { slot: slot as usize, image },
                    ),
                )
            } else {
                Err(FrameFault::ImageOutOfRange)
            },
            FrameEvent::OutOfDate => Ok(
                (FrameState { phase: Phase::Rebuilding, ..s }, FrameAction::RebuildChain),
            ),
            _ => Err(FrameFault::UnexpectedEvent),
        },
        Phase::Recording { image } => match e {
            FrameEvent::Recorded => Ok(
                (
                    FrameState { phase: Phase::Submitting { image }, ..s },
                    FrameAction::Submit { slot: slot as usize },
                ),
            ),
            _ => Err(FrameFault::UnexpectedEvent),
        },
        Phase::Submitting { image } => match e {
            FrameEvent::Submitted => Ok(
                (
                    FrameState {
                        phase: Phase::Presenting { image },
                        in_flight: s.in_flight.update(slot, true),
                        ..s
                    },
                    FrameAction::Present { slot: slot as usize, image },
                ),
            ),
            _ => Err(FrameFault::UnexpectedEvent),
        },
        Phase::Presenting { image } => match e {
            FrameEvent::Presented => if s.frame_counter < u64::MAX {
                Ok(
                    (
                        FrameState { phase: Phase::Idle, frame_counter: s.frame_counter + 1, ..s },
                        FrameAction::FrameDone,
                    ),
                )
            } else {
                Err(FrameFault::CounterExhausted)
            },
            FrameEvent::OutOfDate => Ok(
                (FrameState { phase: Phase::Rebuilding, ..s }, FrameAction::RebuildChain),
            ),
            _ => Err(FrameFault::UnexpectedEvent),
        },
        Phase::Rebuilding => match e {
            FrameEvent::ChainRebuilt(count) => if s.rebuilds < u64::MAX {
                Ok(
                    (
                        FrameState {
                            phase: Phase::Idle,
                            image_count: count as int,
                            rebuilds: s.rebuilds + 1,
                            ..s
                        },
                        FrameAction::Resume,
                    ),
                )
            } else {
                Err(FrameFault::CounterExhausted)
            },
            _ => Err(FrameFault::UnexpectedEvent),
        },
    }
}

/// Drives the frames of one image chain through the ring of slots.
pub struct FrameOrchestrator {
    frame_counter: u64,
    phase: Phase,
    in_flight: Vec<bool>,
    image_count: u32,
    rebuilds: u64,
}

impl View for FrameOrchestrator {
    type V = FrameState;

    closed spec fn view(&self) -> FrameState {
        FrameState {
            frame_counter: self.frame_counter as int,
            phase: self.phase,
            in_flight: self.in_flight@,
            image_count: self.image_count as int,
            rebuilds: self.rebuilds as int,
        }
    }
}

impl FrameOrchestrator {
    #[verifier::type_invariant]
    closed spec fn inv(self) -> bool {
        self@.wf()
    }

    /// A new orchestrator for a chain of `image_count` images: counter at
    /// zero, every slot's fence signaled, between frames.
    pub fn new(image_count: u32) -> (r: FrameOrchestrator)
        ensures
            r@.wf(),
            r@.frame_counter == 0,
            r@.phase == Phase::Idle,
            r@.in_flight == seq![false, false],
            r@.image_count == image_count,
            r@.rebuilds == 0,
    {
        let r = FrameOrchestrator {
            frame_counter: 0,
            phase: Phase::Idle,
            in_flight: vec![false, false],
            image_count,
            rebuilds: 0,
        };
        assert(r.in_flight@ =~= seq![false, false]);
        r
    }

    /// Number of frames completed so far.
    pub fn frame_counter(&self) -> (r: u64)
        ensures
            r == self@.frame_counter,
    {
        self.frame_counter
    }

    /// The phase of the frame in progress.
    pub fn phase(&self) -> (r: Phase)
        ensures
            r == self@.phase,
    {
        self.phase
    }

    /// The slot of the frame in progress.
    pub fn current_slot(&self) -> (r: usize)
        ensures
            r as int == self@.slot(),
    {
        slot_of(self.frame_counter)
    }

    /// Whether a submission still holds the fence of `slot`.
    pub fn is_in_flight(&self, slot: usize) -> (r: bool)
        requires
            slot < FRAMES_IN_FLIGHT,
        ensures
            r == self@.in_flight[slot as int],
    {
        proof {
            use_type_invariant(self);
        }
        self.in_flight[slot]
    }

    /// Number of images in the current chain.
    pub fn image_count(&self) -> (r: u32)
        ensures
            r == self@.image_count,
    {
        self.image_count
    }

    /// Number of times the chain has been rebuilt.
    pub fn rebuilds(&self) -> (r: u64)
        ensures
            r == self@.rebuilds,
    {
        self.rebuilds
    }

    /// Takes the host's report of what happened and returns what to do
    /// next. A report that does not fit the current phase leaves the state
    /// unchanged and returns the fault.
    pub fn step(&mut self, event: FrameEvent) -> (r: Result<FrameAction, FrameFault>)
        ensures
            final(self)@.wf(),
            match transition(old(self)@, event) {
                Ok((next, action)) => r == Ok::<FrameAction, FrameFault>(action) && final(self)@ == next,
                Err(fault) => r == Err::<FrameAction, FrameFault>(fault) && final(self)@ == old(self)@,
            },
    {
        proof {
            use_type_invariant(&*self);
        }
        let slot = slot_of(self.frame_counter);
        match self.phase {
            Phase::Idle => match event {
                FrameEvent::Tick => {
                    self.phase = Phase::Waiting;
                    Ok(FrameAction::WaitFence { slot, outstanding: self.in_flight[slot] })
                },
                _ => Err(FrameFault::UnexpectedEvent),
            },
            Phase::Waiting => match event {
                FrameEvent::FenceSignaled => {
                    self.in_flight[slot] = false;
                    self.phase = Phase::Acquiring;
                    Ok(FrameAction::Acquire { slot })
                },
                _ => Err(FrameFault::UnexpectedEvent),
            },
            Phase::Acquiring => match event {
                FrameEvent::ImageAcquired(image) => {
                    if image < self.image_count {
                        self.phase = Phase::Recording { image };
                        Ok(FrameAction::Record { slot, image })
                    } else {
                        Err(FrameFault::ImageOutOfRange)
                    }
                },
                FrameEvent::OutOfDate => {
                    self.phase = Phase::Rebuilding;
                    Ok(FrameAction::RebuildChain)
                },
                _ => Err(FrameFault::UnexpectedEvent),
            },
            Phase::Recording { image } => match event {
                FrameEvent::Recorded => {
                    self.phase = Phase::Submitting { image };
                    Ok(FrameAction::Submit { slot })
                },
                _ => Err(FrameFault::UnexpectedEvent),
            },
            Phase::Submitting { image } => match event {
                FrameEvent::Submitted => {
                    self.phase = Phase::Presenting { image };
                    self.in_flight[slot] = true;
                    Ok(FrameAction::Present { slot, image })
                },
                _ => Err(FrameFault::UnexpectedEvent),
            },
            Phase::Presenting { image } => match event {
                FrameEvent::Presented => {
                    if self.frame_counter < u64::MAX {
                        self.phase = Phase::Idle;
                        self.frame_counter = self.frame_counter + 1;
                        Ok(FrameAction::FrameDone)
                    } else {
                        Err(FrameFault::CounterExhausted)
                    }
                },
                FrameEvent::OutOfDate => {
                    self.phase = Phase::Rebuilding;
                    Ok(FrameAction::RebuildChain)
                },
                _ => Err(FrameFault::UnexpectedEvent),
            },
            Phase::Rebuilding => match event {
                FrameEvent::ChainRebuilt(count) => {
                    if self.rebuilds < u64::MAX {
                        self.phase = Phase::Idle;
                        self.image_count = count;
                        self.rebuilds = self.rebuilds + 1;
                        Ok(FrameAction::Resume)
                    } else {
                        Err(FrameFault::CounterExhausted)
                    }
                },
                _ => Err(FrameFault::UnexpectedEvent),
            },
        }
    }
}

/// A slot is only reused once its fence has been seen signaled: the step
/// that resets a slot's fence and re-records its command buffer is issued
/// for the slot of the current frame and only while no submission holds
/// that fence; and the only step that releases a held fence is the fence
/// wait of that slot.
pub proof fn lemma_slot_reuse_waits_for_fence(s: FrameState, e: FrameEvent)
    requires
        s.wf(),
        transition(s, e) is Ok,
    ensures
        ({
            let (t, a) = transition(s, e)->Ok_0;
            &&& t.wf()
            &&& (a matches FrameAction::Record { slot, .. } ==> slot as int == s.slot() && !s.in_flight[slot as int])
            &&& forall|j: int|
                0 <= j < FRAMES_IN_FLIGHT && s.in_flight[j] && !t.in_flight[j]
                    ==> e == FrameEvent::FenceSignaled && s.phase == Phase::Waiting && j == s.slot()
        }),
{
    assert(0 <= s.slot() < FRAMES_IN_FLIGHT);
    let (t, a) = transition(s, e)->Ok_0;
    assert(t.in_flight.len() == FRAMES_IN_FLIGHT);
    assert(t.wf());
    assert forall|j: int|
        0 <= j < FRAMES_IN_FLIGHT && s.in_flight[j] && !t.in_flight[j] implies e
        == FrameEvent::FenceSignaled && s.phase == Phase::Waiting && j == s.slot() by {
        if !(s.phase == Phase::Waiting && e == FrameEvent::FenceSignaled) {
            if s.phase is Submitting && e == FrameEvent::Submitted {
                assert(t.in_flight == s.in_flight.update(s.slot(), true));
            } else {
                assert(t.in_flight == s.in_flight);
            }
        }
    }
}

/// The frame counter grows by exactly one when a present completes and
/// stays put on every other step.
pub proof fn lemma_counter_advances_once_per_present(s: FrameState, e: FrameEvent)
    requires
        s.wf(),
        transition(s, e) is Ok,
    ensures
        ({
            let (t, a) = transition(s, e)->Ok_0;
            if s.phase is Presenting && e == FrameEvent::Presented {
                t.frame_counter == s.frame_counter + 1 && a == FrameAction::FrameDone
            } else {
                t.frame_counter == s.frame_counter
            }
        }),
{
}

/// An out-of-date chain met while acquiring or presenting leads to exactly
/// one rebuild: while it is under way every report but its completion is
/// refused, so no second rebuild can be asked for; after it completes the
/// next tick starts a frame on the same slot as before.
pub proof fn lemma_rebuild_then_resume(s: FrameState, count: u32)
    requires
        s.wf(),
        s.phase == Phase::Acquiring || s.phase is Presenting,
        s.rebuilds < u64::MAX,
    ensures
        ({
            let (s1, a1) = transition(s, FrameEvent::OutOfDate)->Ok_0;
            let (s2, a2) = transition(s1, FrameEvent::ChainRebuilt(count))->Ok_0;
            &&& transition(s, FrameEvent::OutOfDate) is Ok
            &&& a1 == FrameAction::RebuildChain
            &&& forall|e: FrameEvent|
                !(e is ChainRebuilt) ==> #[trigger] transition(s1, e) == Err::<(FrameState, FrameAction), FrameFault>(
                    FrameFault::UnexpectedEvent,
                )
            &&& transition(s1, FrameEvent::ChainRebuilt(count)) is Ok
            &&& a2 == FrameAction::Resume
            &&& s2.phase == Phase::Idle
            &&& s2.rebuilds == s.rebuilds + 1
            &&& s2.image_count == count
            &&& s2.frame_counter == s.frame_counter
            &&& s2.in_flight == s.in_flight
            &&& transition(s2, FrameEvent::Tick) is Ok
            &&& transition(s2, FrameEvent::Tick)->Ok_0.1 == (FrameAction::WaitFence {
                slot: s.slot() as usize,
                outstanding: s.in_flight[s.slot()],
            })
        }),
{
}

/// The actions issued for `events` fed one after another from `s`, with the
/// state reached; the first fault stops the run.
pub open spec fn run(s: FrameState, events: Seq<FrameEvent>) -> Result<(FrameState, Seq<FrameAction>), FrameFault>
    decreases events.len(),
{
    if events.len() == 0 {
        Ok((s, Seq::empty()))
    } else {
        match transition(s, events[0]) {
            Ok((t, a)) => match run(t, events.drop_first()) {
                Ok((u, acts)) => Ok((u, seq![a] + acts)),
                Err(f) => Err(f),
            },
            Err(f) => Err(f),
        }
    }
}

/// Whether the fence of slot `k` is held by a submission, or is about to be.
spec fn fence_held(s: FrameState, k: int) -> bool {
    s.in_flight[k] || (s.phase is Submitting && s.slot() == k)
}

/// Whether `a` records the command buffer of slot `k`.
pub open spec fn is_record_of(a: FrameAction, k: int) -> bool {
    a matches FrameAction::Record { slot, .. } && slot == k
}

/// Every re-record of slot `k` in `acts` has an acquire for `k` before it.
spec fn records_after_acquire(acts: Seq<FrameAction>, k: int, from: int) -> bool {
    forall|j: int|
        from <= j < acts.len() && is_record_of(#[trigger] acts[j], k) ==> exists|m: int|
            from <= m < j && #[trigger] acts[m] == (FrameAction::Acquire { slot: k as usize })
}

proof fn lemma_held_fence_blocks_record(s: FrameState, events: Seq<FrameEvent>, k: int)
    requires
        s.wf(),
        0 <= k < FRAMES_IN_FLIGHT,
        fence_held(s, k),
        run(s, events) is Ok,
    ensures
        records_after_acquire(run(s, events)->Ok_0.1, k, 0),
    decreases events.len(),
{
    if events.len() > 0 {
        let (t, a) = transition(s, events[0])->Ok_0;
        let rest = events.drop_first();
        let acts = run(s, events)->Ok_0.1;
        let tail = run(t, rest)->Ok_0.1;
        lemma_slot_reuse_waits_for_fence(s, events[0]);
        assert(acts == seq![a] + tail);
        if a == (FrameAction::Acquire { slot: k as usize }) {
            assert forall|j: int|
                0 <= j < acts.len() && is_record_of(acts[j], k)
                implies exists|m: int| 0 <= m < j && acts[m] == (FrameAction::Acquire { slot: k as usize }) by {
                assert(acts[0] == a);
            }
        } else {
            assert(0 <= s.slot() < FRAMES_IN_FLIGHT);
            assert(!is_record_of(a, k));
            assert(fence_held(t, k)) by {
                if s.phase is Submitting && s.slot() == k {
                    assert(t.in_flight[k]);
                } else if s.phase == Phase::Waiting && events[0] == FrameEvent::FenceSignaled {
                    assert(s.slot() != k);
                    assert(t.in_flight[k] == s.in_flight[k]);
                }
            }
            lemma_held_fence_blocks_record(t, rest, k);
            assert forall|j: int|
                0 <= j < acts.len() && is_record_of(acts[j], k)
                implies exists|m: int| 0 <= m < j && acts[m] == (FrameAction::Acquire { slot: k as usize }) by {
                assert(j >= 1);
                assert(acts[j] == tail[j - 1]);
                let m = choose|m: int| 0 <= m < j - 1 && tail[m] == (FrameAction::Acquire { slot: k as usize });
                assert(acts[m + 1] == tail[m]);
            }
        }
    }
}

/// In any run the host carries out, once slot `k` has been submitted, the
/// slot is not recorded again before an acquire for it, and that acquire is
/// only issued once the slot's fence wait has completed. So frame `f + N`
/// never re-records the slot of frame `f` while that frame's work may still
/// be running.
pub proof fn lemma_slot_exclusive_over_runs(s: FrameState, events: Seq<FrameEvent>, k: int, i: int, j: int)
    requires
        s.wf(),
        0 <= k < FRAMES_IN_FLIGHT,
        run(s, events) is Ok,
        0 <= i < j < run(s, events)->Ok_0.1.len(),
        run(s, events)->Ok_0.1[i] == (FrameAction::Submit { slot: k as usize }),
        is_record_of(run(s, events)->Ok_0.1[j], k),
    ensures
        exists|m: int|
            i < m < j && run(s, events)->Ok_0.1[m] == (FrameAction::Acquire { slot: k as usize }),
    decreases events.len(),
{
    let (t, a) = transition(s, events[0])->Ok_0;
    let rest = events.drop_first();
    let acts = run(s, events)->Ok_0.1;
    let tail = run(t, rest)->Ok_0.1;
    lemma_slot_reuse_waits_for_fence(s, events[0]);
    assert(acts == seq![a] + tail);
    assert(acts[j] == tail[j - 1]);
    assert(0 <= s.slot() < FRAMES_IN_FLIGHT);
    if i == 0 {
        assert(s.phase is Recording && s.slot() == k);
        assert(fence_held(t, k));
        lemma_held_fence_blocks_record(t, rest, k);
        let m = choose|m: int| 0 <= m < j - 1 && tail[m] == (FrameAction::Acquire { slot: k as usize });
        assert(acts[m + 1] == tail[m]);
    } else {
        assert(acts[i] == tail[i - 1]);
        lemma_slot_exclusive_over_runs(t, rest, k, i - 1, j - 1);
        let m = choose|m: int| i - 1 < m < j - 1 && tail[m] == (FrameAction::Acquire { slot: k as usize });
        assert(acts[m + 1] == tail[m]);
    }
}

/// Number of completed frames among `acts`.
pub open spec fn frames_done(acts: Seq<FrameAction>) -> int
    decreases acts.len(),
{
    if acts.len() == 0 {
        0
    } else {
        (if acts[0] == FrameAction::FrameDone { 1int } else { 0int }) + frames_done(acts.drop_first())
    }
}

/// Over any run, the frame counter grows by exactly the number of frames
/// that completed, so it never goes back and never skips a value.
pub proof fn lemma_counter_counts_completed_frames(s: FrameState, events: Seq<FrameEvent>)
    requires
        s.wf(),
        run(s, events) is Ok,
    ensures
        run(s, events)->Ok_0.0.frame_counter == s.frame_counter + frames_done(run(s, events)->Ok_0.1),
    decreases events.len(),
{
    if events.len() > 0 {
        let (t, a) = transition(s, events[0])->Ok_0;
        let rest = events.drop_first();
        let acts = run(s, events)->Ok_0.1;
        let tail = run(t, rest)->Ok_0.1;
        lemma_slot_reuse_waits_for_fence(s, events[0]);
        lemma_counter_advances_once_per_present(s, events[0]);
        lemma_counter_counts_completed_frames(t, rest);
        assert(acts == seq![a] + tail);
        assert(acts.drop_first() =~= tail);
        assert(a == FrameAction::FrameDone <==> (s.phase is Presenting && events[0] == FrameEvent::Presented));
    }
}

} // verus!
