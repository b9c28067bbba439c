use vstd::prelude::*;

use crate::sync::{GPUTaskError, TaskResult};

verus! {

/// How many frames may be on the GPU at once.
pub const MAX_FRAMES_IN_FLIGHT: u32 = 3;

/// Where the frame being rendered stands: which answer the cycle waits for.
#[derive(Debug, Clone, Copy, PartialEq, Eq)]
pub enum FramePhase {
    /// No frame is in progress.
    Idle,
    /// The fence of the slot is being waited on.
    AwaitFence,
    /// The next swapchain image is being acquired.
    AwaitImage,
    /// The command buffer of the slot is being recorded for the image.
    AwaitRecord { image_index: u32 },
    /// The fence of the slot is being reset.
    AwaitReset { image_index: u32 },
    /// The command buffer is being submitted.
    AwaitSubmit { image_index: u32 },
    /// The image is being presented.
    AwaitPresent,
}

/// What the driver answered to the last action.
#[derive(Debug, Clone, Copy, PartialEq, Eq)]
pub enum FrameEvent {
    /// A new frame is asked for.
    Begin,
    /// The last action (wait, record, reset or submit) succeeded.
    Done,
    /// An image was acquired; `suboptimal` when the swapchain no longer
    /// matches the surface exactly.
    Acquired { image_index: u32, suboptimal: bool },
    /// The image was queued for display.
    Presented { suboptimal: bool },
    /// The last action failed.
    Failed(GPUTaskError),
}

impl FrameEvent {
    /// The answer to a wait, a recording, a reset or a submission.
    pub fn from_outcome(result: TaskResult<()>) -> (e: FrameEvent)
        ensures
            match result {
                Ok(_) => e == FrameEvent::Done,
                Err(err) => e == FrameEvent::Failed(err),
            },
    {
        match result {
            Ok(_) => FrameEvent::Done,
            Err(err) => FrameEvent::Failed(err),
        }
    }

    /// The answer to an acquire: the image index and whether the swapchain is
    /// suboptimal, or the error.
    pub fn from_acquire(result: TaskResult<(u32, bool)>) -> (e: FrameEvent)
        ensures
            match result {
                Ok((image_index, suboptimal)) => e == (FrameEvent::Acquired { image_index, suboptimal }),
                Err(err) => e == FrameEvent::Failed(err),
            },
    {
        match result {
            Ok((image_index, suboptimal)) => FrameEvent::Acquired { image_index, suboptimal },
            Err(err) => FrameEvent::Failed(err),
        }
    }

    /// The answer to a presentation: whether the swapchain is suboptimal, or
    /// the error.
    pub fn from_present(result: TaskResult<bool>) -> (e: FrameEvent)
        ensures
            match result {
                Ok(suboptimal) => e == (FrameEvent::Presented { suboptimal }),
                Err(err) => e == FrameEvent::Failed(err),
            },
    {
        match result {
            Ok(suboptimal) => FrameEvent::Presented { suboptimal },
            Err(err) => FrameEvent::Failed(err),
        }
    }
}

/// What the renderer must do next. `slot` is the frame slot whose fence,
/// semaphores and command buffer the action uses.
#[derive(Debug, Clone, Copy, PartialEq, Eq)]
pub enum FrameAction {
    /// Wait on the fence of the slot.
    WaitFence { slot: u32 },
    /// Acquire the next image, signalling the slot's acquire semaphore.
    Acquire { slot: u32 },
    /// Record the slot's command buffer for the image.
    Record { slot: u32, image_index: u32 },
    /// Reset the slot's fence before the submission that signals it.
    ResetFence { slot: u32 },
    /// Submit the slot's command buffer: wait on the acquire semaphore,
    /// signal the render semaphore and the fence.
    Submit { slot: u32 },
    /// Present the image, waiting on the slot's render semaphore.
    Present { slot: u32, image_index: u32 },
    /// The frame is complete; the next frame uses the next slot.
    Finish { slot: u32 },
    /// The frame is dropped; the next frame uses the same slot. When
    /// `rearm_fence` holds, the slot's fence was reset and nothing will
    /// signal it: it must be put back in the signalled state.
    Abandon { slot: u32, rearm_fence: bool, error: Option<GPUTaskError> },
}

/// The model of a [`FrameCycle`]: its slot, the number of slots, its phase,
/// and how many frames it has completed.
pub struct FrameCycleView {
    pub current_frame: u32,
    pub max_frames_in_flight: u32,
    pub phase: FramePhase,
    pub frames_completed: nat,
}

impl FrameCycleView {
    /// The slot always follows the count of completed frames.
    pub open spec fn wf(self) -> bool {
        &&& self.max_frames_in_flight > 0
        &&& self.current_frame < self.max_frames_in_flight
        &&& self.current_frame == self.frames_completed % (self.max_frames_in_flight as nat)
    }

    pub open spec fn with_phase(self, phase: FramePhase) -> FrameCycleView {
        FrameCycleView { phase, ..self }
    }

    /// The state after a completed frame: idle, on the next slot.
    pub open spec fn advanced(self) -> FrameCycleView {
        FrameCycleView {
            current_frame: ((self.current_frame + 1) % (self.max_frames_in_flight as int)) as u32,
            phase: FramePhase::Idle,
            frames_completed: self.frames_completed + 1,
            ..self
        }
    }

    /// Whether the slot's fence has been reset and no submission that
    /// signals it has been made.
    pub open spec fn fence_unsignalled(self) -> bool {
        self.phase is AwaitReset || self.phase is AwaitSubmit
    }

    /// Dropping the frame in progress.
    pub open spec fn abandon(self, error: Option<GPUTaskError>) -> (FrameCycleView, FrameAction) {
        (
            self.with_phase(FramePhase::Idle),
            FrameAction::Abandon {
                slot: self.current_frame,
                rearm_fence: self.fence_unsignalled(),
                error,
            },
        )
    }
}

/// One step of the frame protocol: from a state and the driver's answer to
/// the next state and the action to perform.
///
/// A frame runs wait, acquire, record, reset, submit, present. A suboptimal
/// or failed acquire or present, or any other failure, drops the frame
/// without moving to the next slot. The fence is reset only once the frame
/// is sure to be submitted, so that a dropped frame leaves it signalled.
pub open spec fn next(s: FrameCycleView, e: FrameEvent) -> (FrameCycleView, FrameAction) {
    let slot = s.current_frame;
    match e {
        FrameEvent::Failed(err) => s.abandon(Some(err)),
        FrameEvent::Begin => if s.phase is Idle {
            (s.with_phase(FramePhase::AwaitFence), FrameAction::WaitFence { slot })
        } else {
            s.abandon(None)
        },
        FrameEvent::Done => match s.phase {
            FramePhase::AwaitFence => (
                s.with_phase(FramePhase::AwaitImage),
                FrameAction::Acquire { slot },
            ),
            FramePhase::AwaitRecord { image_index } => (
                s.with_phase(FramePhase::AwaitReset { image_index }),
                FrameAction::ResetFence { slot },
            ),
            FramePhase::AwaitReset { image_index } => (
                s.with_phase(FramePhase::AwaitSubmit { image_index }),
                FrameAction::Submit { slot },
            ),
            FramePhase::AwaitSubmit { image_index } => (
                s.with_phase(FramePhase::AwaitPresent),
                FrameAction::Present { slot, image_index },
            ),
            _ => s.abandon(None),
        },
        FrameEvent::Acquired { image_index, suboptimal } => if s.phase is AwaitImage {
            if suboptimal {
                s.abandon(None)
            } else {
                (
                    s.with_phase(FramePhase::AwaitRecord { image_index }),
                    FrameAction::Record { slot, image_index },
                )
            }
        } else {
            s.abandon(None)
        },
        FrameEvent::Presented { suboptimal } => if s.phase is AwaitPresent && !suboptimal {
            (s.advanced(), FrameAction::Finish { slot })
        } else {
            s.abandon(None)
        },
    }
}

/// The per-frame protocol of the renderer, one slot per frame in flight.
pub struct FrameCycle {
    current_frame: u32,
    max_frames_in_flight: u32,
    phase: FramePhase,
    frames_completed: Ghost<nat>,
}

impl View for FrameCycle {
    type V = FrameCycleView;

    closed spec fn view(&self) -> FrameCycleView {
        FrameCycleView {
            current_frame: self.current_frame,
            max_frames_in_flight: self.max_frames_in_flight,
            phase: self.phase,
            frames_completed: self.frames_completed@,
        }
    }
}

impl FrameCycle {
    /// A cycle with `max_frames_in_flight` slots, idle on slot 0.
    pub fn new(max_frames_in_flight: u32) -> (r: Self)
        requires
            max_frames_in_flight > 0,
        ensures
            r@ == (FrameCycleView {
                current_frame: 0,
                max_frames_in_flight,
                phase: FramePhase::Idle,
                frames_completed: 0,
            }),
            r@.wf(),
    {
        proof {
            vstd::arithmetic::div_mod::lemma_small_mod(0, max_frames_in_flight as nat);
        }
        FrameCycle {
            current_frame: 0,
            max_frames_in_flight,
            phase: FramePhase::Idle,
            frames_completed: Ghost(0),
        }
    }

    /// The slot that the frame in progress, or the next frame, uses.
    pub fn current_frame(&self) -> (r: u32)
        ensures
            r == self@.current_frame,
    {
        self.current_frame
    }

    pub fn max_frames_in_flight(&self) -> (r: u32)
        ensures
            r == self@.max_frames_in_flight,
    {
        self.max_frames_in_flight
    }

    pub fn phase(&self) -> (r: FramePhase)
        ensures
            r == self@.phase,
    {
        self.phase
    }

    fn abandon(&mut self, error: Option<GPUTaskError>) -> (action: FrameAction)
        ensures
            (final(self)@, action) == old(self)@.abandon(error),
    {
        let rearm_fence = match self.phase {
            FramePhase::AwaitReset { .. } | FramePhase::AwaitSubmit { .. } => true,
            _ => false,
        };
        self.phase = FramePhase::Idle;
        FrameAction::Abandon { slot: self.current_frame, rearm_fence, error }
    }

    /// Takes the driver's answer to the last action and says what to do next.
    pub fn step(&mut self, event: FrameEvent) -> (action: FrameAction)
        requires
            old(self)@.wf(),
        ensures
            (final(self)@, action) == next(old(self)@, event),
            final(self)@.wf(),
    {
        let slot = self.current_frame;
        let action = match event {
            FrameEvent::Failed(err) => self.abandon(Some(err)),
            FrameEvent::Begin => match self.phase {
                FramePhase::Idle => {
                    self.phase = FramePhase::AwaitFence;
                    FrameAction::WaitFence { slot }
                },
                _ => self.abandon(None),
            },
            FrameEvent::Done => match self.phase {
                FramePhase::AwaitFence => {
                    self.phase = FramePhase::AwaitImage;
                    FrameAction::Acquire { slot }
                },
                FramePhase::AwaitRecord { image_index } => {
                    self.phase = FramePhase::AwaitReset { image_index };
                    FrameAction::ResetFence { slot }
                },
                FramePhase::AwaitReset { image_index } => {
                    self.phase = FramePhase::AwaitSubmit { image_index };
                    FrameAction::Submit { slot }
                },
                FramePhase::AwaitSubmit { image_index } => {
                    self.phase = FramePhase::AwaitPresent;
                    FrameAction::Present { slot, image_index }
                },
                _ => self.abandon(None),
            },
            FrameEvent::Acquired { image_index, suboptimal } => match self.phase {
                FramePhase::AwaitImage => {
                    if suboptimal {
                        self.abandon(None)
                    } else {
                        self.phase = FramePhase::AwaitRecord { image_index };
                        FrameAction::Record { slot, image_index }
                    }
                },
                _ => self.abandon(None),
            },
            FrameEvent::Presented { suboptimal } => match self.phase {
                FramePhase::AwaitPresent => {
                    if suboptimal {
                        self.abandon(None)
                    } else {
                        self.advance();
                        FrameAction::Finish { slot }
                    }
                },
                _ => self.abandon(None),
            },
        };
        proof {
            lemma_next_keeps_wf(old(self)@, event);
        }
        action
    }

    fn advance(&mut self)
        requires
            old(self)@.wf(),
        ensures
            final(self)@ == old(self)@.advanced(),
    {
        self.current_frame = (self.current_frame + 1) % self.max_frames_in_flight;
        self.phase = FramePhase::Idle;
        self.frames_completed = Ghost(self.frames_completed@ + 1);
    }
}

/// Every step keeps the slot in step with the count of completed frames.
pub proof fn lemma_next_keeps_wf(s: FrameCycleView, e: FrameEvent)
    requires
        s.wf(),
    ensures
        next(s, e).0.wf(),
{
    let n = s.max_frames_in_flight as nat;
    let t = s.advanced();
    assert(t.current_frame == t.frames_completed % n) by {
        vstd::arithmetic::div_mod::lemma_add_mod_noop(s.frames_completed as int, 1, n as int);
        if n > 1 {
            vstd::arithmetic::div_mod::lemma_small_mod(1, n);
        }
    }
}

/// Feeding `events` one by one from `s`: the last state, and the actions in
/// the order they were asked for.
pub open spec fn run(s: FrameCycleView, events: Seq<FrameEvent>) -> (FrameCycleView, Seq<FrameAction>)
    decreases events.len(),
{
    if events.len() == 0 {
        (s, Seq::empty())
    } else {
        let (t, a) = next(s, events[0]);
        let (u, rest) = run(t, events.drop_first());
        (u, seq![a] + rest)
    }
}

/// The driver's answers in a frame that goes through without a hitch.
pub open spec fn frame_events(image_index: u32) -> Seq<FrameEvent> {
    seq![
        FrameEvent::Begin,
        FrameEvent::Done,
        FrameEvent::Acquired { image_index, suboptimal: false },
        FrameEvent::Done,
        FrameEvent::Done,
        FrameEvent::Done,
        FrameEvent::Presented { suboptimal: false },
    ]
}

/// The answers of successful frames, one for each acquired image index.
pub open spec fn frames_events(images: Seq<u32>) -> Seq<FrameEvent>
    decreases images.len(),
{
    if images.len() == 0 {
        Seq::empty()
    } else {
        frame_events(images[0]) + frames_events(images.drop_first())
    }
}

/// The actions of a successful frame on `slot`.
pub open spec fn frame_actions(slot: u32, image_index: u32) -> Seq<FrameAction> {
    seq![
        FrameAction::WaitFence { slot },
        FrameAction::Acquire { slot },
        FrameAction::Record { slot, image_index },
        FrameAction::ResetFence { slot },
        FrameAction::Submit { slot },
        FrameAction::Present { slot, image_index },
        FrameAction::Finish { slot },
    ]
}

/// The actions of successful frames when the first of them is frame number
/// `first`: frame `first + k` uses slot `(first + k) % n` throughout.
pub open spec fn rotation(first: nat, n: nat, images: Seq<u32>) -> Seq<FrameAction>
    decreases images.len(),
{
    if images.len() == 0 {
        Seq::empty()
    } else {
        frame_actions((first % n) as u32, images[0]) + rotation(first + 1, n, images.drop_first())
    }
}

/// Running two sequences of events is running the first, then the second
/// from where the first left off.
pub proof fn lemma_run_append(s: FrameCycleView, a: Seq<FrameEvent>, b: Seq<FrameEvent>)
    ensures
        run(s, a + b) == (run(run(s, a).0, b).0, run(s, a).1 + run(run(s, a).0, b).1),
    decreases a.len(),
{
    if a.len() == 0 {
        assert(a + b =~= b);
        assert(run(s, a).1 + run(s, b).1 =~= run(s, b).1);
    } else {
        let t = next(s, a[0]).0;
        lemma_run_append(t, a.drop_first(), b);
        assert((a + b).drop_first() =~= a.drop_first() + b);
        assert(seq![next(s, a[0]).1] + (run(t, a.drop_first()).1 + run(run(t, a.drop_first()).0, b).1)
            =~= (seq![next(s, a[0]).1] + run(t, a.drop_first()).1) + run(run(t, a.drop_first()).0, b).1);
    }
}

/// A frame without a hitch, from an idle cycle, performs the seven actions on
/// the current slot and leaves the cycle idle on the next slot.
pub proof fn lemma_successful_frame(s: FrameCycleView, image_index: u32)
    requires
        s.wf(),
        s.phase is Idle,
    ensures
        run(s, frame_events(image_index)) == (s.advanced(), frame_actions(s.current_frame, image_index)),
{
    let e = frame_events(image_index);
    reveal_with_fuel(run, 8);
    let s1 = next(s, e[0]).0;
    let s2 = next(s1, e[1]).0;
    let s3 = next(s2, e[2]).0;
    let s4 = next(s3, e[3]).0;
    let s5 = next(s4, e[4]).0;
    let s6 = next(s5, e[5]).0;
    let s7 = next(s6, e[6]).0;
    assert(e.drop_first().drop_first().drop_first().drop_first().drop_first().drop_first().drop_first()
        =~= Seq::<FrameEvent>::empty());
    assert(run(s, e).1 =~= frame_actions(s.current_frame, image_index));
}

/// Frame-slot rotation. Over any run of successful frames from an idle cycle,
/// frame number `frames_completed + k` waits on, resets and signals the fence
/// of slot `(frames_completed + k) % N`, and uses that slot's semaphores and
/// command buffer; afterwards the cycle is idle on the slot of the next frame.
pub proof fn lemma_frames_rotate(s: FrameCycleView, images: Seq<u32>)
    requires
        s.wf(),
        s.phase is Idle,
    ensures
        run(s, frames_events(images)) == (
            FrameCycleView {
                current_frame: ((s.frames_completed + images.len()) % (s.max_frames_in_flight as nat)) as u32,
                phase: FramePhase::Idle,
                frames_completed: s.frames_completed + images.len(),
                ..s
            },
            rotation(s.frames_completed, s.max_frames_in_flight as nat, images),
        ),
    decreases images.len(),
{
    let n = s.max_frames_in_flight as nat;
    if images.len() == 0 {
        reveal_with_fuel(run, 1);
    } else {
        let rest = images.drop_first();
        lemma_successful_frame(s, images[0]);
        lemma_run_append(s, frame_events(images[0]), frames_events(rest));
        lemma_next_keeps_wf(s.with_phase(FramePhase::AwaitPresent), FrameEvent::Presented { suboptimal: false });
        lemma_frames_rotate(s.advanced(), rest);
        assert(s.frames_completed + 1 + rest.len() == s.frames_completed + images.len());
    }
}

/// Fences follow the frame counter, whatever the driver answers: a fence that
/// is waited on or reset is the one of slot `frames_completed % N`, and the
/// counter moves, by one, only when a frame finishes.
pub proof fn lemma_fence_follows_count(s: FrameCycleView, e: FrameEvent)
    requires
        s.wf(),
    ensures
        next(s, e).1 matches FrameAction::WaitFence { slot } ==> slot == s.frames_completed % (s.max_frames_in_flight as nat),
        next(s, e).1 matches FrameAction::ResetFence { slot } ==> slot == s.frames_completed % (s.max_frames_in_flight as nat),
        next(s, e).0.frames_completed == if next(s, e).1 is Finish {
            s.frames_completed + 1
        } else {
            s.frames_completed
        },
{
}

/// A run yields one action per event.
pub proof fn lemma_run_len(s: FrameCycleView, events: Seq<FrameEvent>)
    ensures
        run(s, events).1.len() == events.len(),
    decreases events.len(),
{
    if events.len() > 0 {
        lemma_run_len(next(s, events[0]).0, events.drop_first());
    }
}

/// The `k`-th action of a run is the answer of the cycle, in the state that
/// the first `k` events lead to, to the `k`-th event.
pub proof fn lemma_run_step(s: FrameCycleView, events: Seq<FrameEvent>, k: int)
    requires
        0 <= k < events.len(),
    ensures
        run(s, events).1[k] == next(run(s, events.take(k)).0, events[k]).1,
        run(s, events.take(k + 1)).0 == next(run(s, events.take(k)).0, events[k]).0,
{
    let before = events.take(k);
    let t = run(s, before).0;
    lemma_run_append(s, before, seq![events[k]]);
    assert(before + seq![events[k]] =~= events.take(k + 1));
    reveal_with_fuel(run, 2);
    assert(seq![events[k]].drop_first() =~= Seq::<FrameEvent>::empty());
    lemma_run_append(s, events.take(k + 1), events.skip(k + 1));
    assert(events.take(k + 1) + events.skip(k + 1) =~= events);
    lemma_run_len(s, before);
}

/// A fence is reset only after a successful wait on it in the same frame.
/// From an idle cycle, whatever the driver answers: when the `k`-th action
/// resets the fence of a slot, the action three steps before waited on that
/// same fence, the answer to the wait was success, and the image acquired in
/// between was not suboptimal.
pub proof fn lemma_reset_after_wait(s: FrameCycleView, events: Seq<FrameEvent>, k: int)
    requires
        s.wf(),
        s.phase is Idle,
        0 <= k < events.len(),
        run(s, events).1[k] is ResetFence,
    ensures
        k >= 3,
        run(s, events).1[k - 3] == (FrameAction::WaitFence {
            slot: run(s, events).1[k]->ResetFence_slot,
        }),
        events[k - 2] == FrameEvent::Done,
        events[k - 1] matches FrameEvent::Acquired { suboptimal, .. } && !suboptimal,
{
    let state = |i: int| run(s, events.take(i)).0;
    assert(events.take(0) =~= Seq::<FrameEvent>::empty());
    reveal_with_fuel(run, 1);
    assert(state(0) == s);
    lemma_run_step(s, events, k);
    assert(state(k).phase is AwaitRecord);
    assert(k >= 1);
    lemma_run_step(s, events, k - 1);
    assert(state(k - 1).phase is AwaitImage);
    assert(k >= 2);
    lemma_run_step(s, events, k - 2);
    assert(state(k - 2).phase is AwaitFence);
    assert(k >= 3);
    lemma_run_step(s, events, k - 3);
    assert(state(k - 3).phase is Idle);
}

} // verus!
