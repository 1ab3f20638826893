//! The pipeline: the shared buffer, the worker pool, the bounded data
//! channel, the rate controller, and the resize protocol that pauses
//! workers, drains stale writes, rescales the buffer and resumes workers
//! without ever letting a stale coordinate reach the new buffer.

use vstd::prelude::*;

use crate::buffer::Buffer;
use crate::buffer::pix_after;
use crate::pixel::DrawRequest;
use crate::pixel::OutOfBounds;
use crate::pixel::out_of_bounds;
use crate::queue::ChannelQueue;
use crate::rate::RateState;
use crate::rate::compute_budget;
use crate::rate::compute_rate;
use crate::rate::drain_budget;
use crate::rate::measured_rate;
use crate::rate::rate_update;
use crate::worker::ControlMessage;
use crate::worker::PollOutcome;
use crate::worker::WorkerState;
use crate::worker::palette;
use crate::worker::spec_palette;
use crate::worker::spec_synth;

verus! {

/// What a producer does when the bounded data channel is full: block until
/// space frees up, or drop the write and continue. The two have materially
/// different throughput and loss characteristics; the choice is an
/// explicit startup parameter, honored consistently.
#[derive(Clone, Copy, Debug, PartialEq, Eq, Structural)]
pub enum ChannelPolicy {
    /// Sending on a full channel waits: no request is lost, producer pace
    /// is coupled to consumer pace.
    Block,
    /// Sending on a full channel drops the request: memory and latency are
    /// bounded, lost writes are counted.
    Drop,
}

/// The outcome of offering one request to the data channel.
#[derive(Clone, Copy, Debug, PartialEq, Eq, Structural)]
pub enum SendOutcome {
    /// Accepted at the tail of the channel.
    Sent,
    /// The channel was full under the drop policy: the write is lost and
    /// counted, never fatal.
    Dropped,
    /// The channel was full under the block policy: the caller must wait
    /// for the consumer and offer the same request again.
    WouldBlock,
}

/// The outcome of granting one worker a production turn.
#[derive(Clone, Copy, Debug, PartialEq, Eq, Structural)]
pub enum ProduceOutcome {
    /// A request was synthesized and accepted by its channel.
    Sent,
    /// A request was synthesized and lost on a full channel (drop policy).
    Dropped,
    /// The channel is full under the block policy: the worker state is
    /// unchanged and the turn can be retried.
    WouldBlock,
    /// The worker is paused, aims at a zero-area resolution, or has
    /// exhausted its write counter: nothing was produced.
    Idle,
}

/// The startup parameters of the pipeline.
#[derive(Clone, Copy, Debug, PartialEq, Eq, Structural)]
pub struct PipelineConfig {
    pub width: u32,
    pub height: u32,
    pub workers: usize,
    pub target_rate: u64,
    pub channel_capacity: usize,
    pub policy: ChannelPolicy,
    pub min_budget: u64,
}

/// Where the resize protocol stands. Outside a resize the pipeline is
/// `Idle`; the five protocol steps walk the remaining phases in order, and
/// the well-formedness invariant makes skipping or reordering a step
/// unprovable.
#[derive(Clone, Copy, Debug, PartialEq, Eq, Structural)]
pub enum Phase {
    /// No resize in flight.
    Idle,
    /// Step one: sending the new resolution and the fresh channel to each
    /// worker in turn; signaled workers are paused.
    Signaling,
    /// Step two: all workers paused, the stale writes in the old channel
    /// are about to be discarded.
    Draining,
    /// Step three: the old channel is empty, the buffer is about to be
    /// rescaled.
    Swapping,
    /// Step four: the buffer has the new size, workers resume one by one.
    Resuming,
    /// Step five: all workers resumed, the fresh channel becomes the
    /// consumer's read source.
    Installing,
}

/// The number of consecutive starved cycles after which the consumer
/// reports degraded throughput.
pub const DEGRADED_CYCLES: u32 = 30;

/// What one consumer cycle reports for observability: how many requests
/// were drained against what budget, the measured and the adjusted rate,
/// and whether throughput has been degraded for a sustained period.
#[derive(Clone, Copy, Debug, PartialEq, Eq, Structural)]
pub struct TickReport {
    pub drained: usize,
    pub budget: u64,
    pub actual_rate: u64,
    pub target_rate: u64,
    pub degraded: bool,
}

/// The pipeline state: one buffer with exactly one mutator (the consumer),
/// a pool of worker states, the current data channel and, during a resize,
/// the staged successor channel.
pub struct Pipeline {
    pub buffer: Buffer,
    pub workers: Vec<WorkerState>,
    pub data: ChannelQueue,
    pub staged: Option<ChannelQueue>,
    pub chan_gen: u64,
    pub rate: RateState,
    pub policy: ChannelPolicy,
    pub min_budget: u64,
    pub phase: Phase,
    pub progress: usize,
    pub pending_w: u32,
    pub pending_h: u32,
    pub dropped: u64,
    pub applied: u64,
    pub low_cycles: u32,
}

/// The worker state right after it processed `NewResolution`: paused, at
/// the new resolution, holding the fresh channel.
pub open spec fn signaled_worker(w: WorkerState, width: u32, height: u32, channel: u64) -> WorkerState {
    WorkerState { cur_x: width, cur_y: height, active: false, channel, ..w }
}

/// The worker state right after it processed `Resume`.
pub open spec fn resumed_worker(w: WorkerState) -> WorkerState {
    WorkerState { active: true, ..w }
}

/// The worker state after it spent one write count.
pub open spec fn bumped_worker(w: WorkerState) -> WorkerState {
    WorkerState { counter: (w.counter + 1) as u64, ..w }
}

/// The request a worker synthesizes on its next turn from the given seed.
pub open spec fn next_request(w: WorkerState, seed: u64) -> DrawRequest {
    spec_synth(seed, (w.counter + 1) as u64, w.cur_x, w.cur_y, w.base_r, w.base_g, w.base_b)
}

/// Whether a worker can produce at all: active, a positive-area target,
/// and a write count left.
pub open spec fn can_produce(w: WorkerState) -> bool {
    w.active && w.cur_x > 0 && w.cur_y > 0 && w.counter < u64::MAX
}

impl Pipeline {
    /// Every request pending in the consumer's channel addresses a pixel
    /// inside the installed buffer.
    pub open spec fn data_in_bounds(self) -> bool {
        forall|k: int|
            0 <= k < self.data@.len() ==> (#[trigger] self.data@[k]).in_bounds(
                self.buffer.width as int,
                self.buffer.height as int,
            )
    }

    /// Every request pending in the staged channel addresses a pixel
    /// inside the pending resolution.
    pub open spec fn staged_in_bounds(self) -> bool {
        self.staged matches Some(q) ==> forall|k: int|
            0 <= k < q@.len() ==> (#[trigger] q@[k]).in_bounds(
                self.pending_w as int,
                self.pending_h as int,
            )
    }

    /// A worker that has processed this resize's `NewResolution`: paused,
    /// at the pending resolution, holding the fresh channel.
    pub open spec fn worker_signaled(self, w: WorkerState) -> bool {
        &&& !w.active
        &&& w.cur_x == self.pending_w
        &&& w.cur_y == self.pending_h
        &&& w.channel == self.chan_gen + 1
    }

    /// A worker that has also processed this resize's `Resume`.
    pub open spec fn worker_resumed(self, w: WorkerState) -> bool {
        &&& w.active
        &&& w.cur_x == self.pending_w
        &&& w.cur_y == self.pending_h
        &&& w.channel == self.chan_gen + 1
    }

    /// A worker outside any resize: it holds the current channel, and if
    /// it is active its resolution is the buffer's.
    pub open spec fn worker_settled(self, w: WorkerState) -> bool {
        &&& w.channel == self.chan_gen
        &&& (w.active ==> w.cur_x == self.buffer.width && w.cur_y == self.buffer.height)
    }

    /// What holds of workers and channels in each phase of the resize
    /// protocol. This is the ordering requirement of the protocol made
    /// checkable: each step's precondition is the previous step's result.
    pub open spec fn phase_inv(self) -> bool {
        let n = self.workers@.len() as int;
        match self.phase {
            Phase::Idle => {
                &&& self.staged is None
                &&& forall|i: int| 0 <= i < n ==> self.worker_settled(#[trigger] self.workers@[i])
            },
            Phase::Signaling => {
                &&& self.staged is Some
                &&& self.progress <= n
                &&& self.chan_gen < u64::MAX
                &&& 4 * self.pending_w * self.pending_h <= usize::MAX
                &&& forall|i: int|
                    0 <= i < self.progress ==> self.worker_signaled(#[trigger] self.workers@[i])
                &&& forall|i: int|
                    self.progress <= i < n ==> self.worker_settled(#[trigger] self.workers@[i])
            },
            Phase::Draining => {
                &&& self.staged is Some
                &&& self.chan_gen < u64::MAX
                &&& 4 * self.pending_w * self.pending_h <= usize::MAX
                &&& forall|i: int| 0 <= i < n ==> self.worker_signaled(#[trigger] self.workers@[i])
            },
            Phase::Swapping => {
                &&& self.staged is Some
                &&& self.chan_gen < u64::MAX
                &&& 4 * self.pending_w * self.pending_h <= usize::MAX
                &&& self.data@.len() == 0
                &&& forall|i: int| 0 <= i < n ==> self.worker_signaled(#[trigger] self.workers@[i])
            },
            Phase::Resuming => {
                &&& self.staged is Some
                &&& self.progress <= n
                &&& self.chan_gen < u64::MAX
                &&& self.buffer.width == self.pending_w
                &&& self.buffer.height == self.pending_h
                &&& self.data@.len() == 0
                &&& forall|i: int|
                    0 <= i < self.progress ==> self.worker_resumed(#[trigger] self.workers@[i])
                &&& forall|i: int|
                    self.progress <= i < n ==> self.worker_signaled(#[trigger] self.workers@[i])
            },
            Phase::Installing => {
                &&& self.staged is Some
                &&& self.chan_gen < u64::MAX
                &&& self.buffer.width == self.pending_w
                &&& self.buffer.height == self.pending_h
                &&& self.data@.len() == 0
                &&& forall|i: int| 0 <= i < n ==> self.worker_resumed(#[trigger] self.workers@[i])
            },
        }
    }

    /// The pipeline's well-formedness: every component well-formed, every
    /// pending request in bounds of its destination, and the phase
    /// invariant of the resize protocol.
    pub open spec fn wf(self) -> bool {
        &&& self.buffer.wf()
        &&& self.data.wf()
        &&& (self.staged matches Some(q) ==> q.wf() && q.cap() == self.data.cap())
        &&& self.rate.wf()
        &&& self.workers@.len() >= 1
        &&& self.rate.floor == self.workers@.len()
        &&& self.data_in_bounds()
        &&& self.staged_in_bounds()
        &&& self.phase_inv()
    }

    /// Builds the pipeline: a white buffer at the initial resolution, at
    /// least one worker (each active at that resolution, with its palette
    /// color bias), an empty data channel of the configured capacity, and
    /// the rate controller at the configured target.
    pub fn new(config: PipelineConfig) -> (p: Pipeline)
        requires
            4 * config.width * config.height <= usize::MAX,
        ensures
            p.wf(),
            p.phase is Idle,
            p.buffer.width == config.width,
            p.buffer.height == config.height,
            forall|i: int, j: int|
                0 <= i < config.width && 0 <= j < config.height ==> p.buffer.pix(i, j)
                    == crate::pixel::white(),
            p.workers@.len() == (if config.workers >= 1 {
                config.workers as int
            } else {
                1
            }),
            forall|i: int|
                0 <= i < p.workers@.len() ==> #[trigger] p.workers@[i] == (WorkerState {
                    cur_x: config.width,
                    cur_y: config.height,
                    active: true,
                    channel: 0,
                    counter: 0,
                    base_r: spec_palette(i).0,
                    base_g: spec_palette(i).1,
                    base_b: spec_palette(i).2,
                }),
            p.data@.len() == 0,
            p.data.cap() == config.channel_capacity,
            p.chan_gen == 0,
            p.policy == config.policy,
            p.min_budget == config.min_budget,
            p.rate.floor == p.workers@.len(),
            p.rate.target_rate as int == vstd::math::max(
                config.target_rate as int,
                p.rate.floor as int,
            ),
            p.rate.actual_rate == 0,
            p.dropped == 0,
            p.applied == 0,
            p.low_cycles == 0,
    {
        let count: usize = if config.workers >= 1 {
            config.workers
        } else {
            1
        };
        let mut workers: Vec<WorkerState> = Vec::new();
        let mut i: usize = 0;
        while i < count
            invariant
                i <= count,
                workers@.len() == i,
                forall|k: int|
                    0 <= k < i ==> #[trigger] workers@[k] == (WorkerState {
                        cur_x: config.width,
                        cur_y: config.height,
                        active: true,
                        channel: 0,
                        counter: 0,
                        base_r: spec_palette(k).0,
                        base_g: spec_palette(k).1,
                        base_b: spec_palette(k).2,
                    }),
            decreases count - i,
        {
            let base = palette(i);
            workers.push(WorkerState::new(config.width, config.height, 0, base));
            i = i + 1;
        }
        Pipeline {
            buffer: Buffer::new(config.width, config.height),
            workers,
            data: ChannelQueue::new(config.channel_capacity),
            staged: None,
            chan_gen: 0,
            rate: RateState::new(config.target_rate, count as u64),
            policy: config.policy,
            min_budget: config.min_budget,
            phase: Phase::Idle,
            progress: 0,
            pending_w: 0,
            pending_h: 0,
            dropped: 0,
            applied: 0,
            low_cycles: 0,
        }
    }

    /// Opens the resize protocol for a new resolution: stages the fresh
    /// data channel that will feed the post-resize consumer. Nothing is
    /// signaled yet.
    pub fn begin_resize(&mut self, new_w: u32, new_h: u32)
        requires
            old(self).wf(),
            old(self).phase is Idle,
            4 * new_w * new_h <= usize::MAX,
            old(self).chan_gen < u64::MAX,
        ensures
            final(self).wf(),
            final(self).phase is Signaling,
            final(self).progress == 0,
            final(self).pending_w == new_w,
            final(self).pending_h == new_h,
            final(self).staged matches Some(q) && q@.len() == 0 && q.cap() == old(self).data.cap(),
            final(self).buffer == old(self).buffer,
            final(self).workers == old(self).workers,
            final(self).data == old(self).data,
            final(self).chan_gen == old(self).chan_gen,
            final(self).rate == old(self).rate,
            final(self).policy == old(self).policy,
            final(self).min_budget == old(self).min_budget,
            final(self).dropped == old(self).dropped,
            final(self).applied == old(self).applied,
            final(self).low_cycles == old(self).low_cycles,
    {
        let cap = self.data.capacity();
        self.staged = Some(ChannelQueue::new(cap));
        self.pending_w = new_w;
        self.pending_h = new_h;
        self.progress = 0;
        self.phase = Phase::Signaling;
    }

    /// Protocol step one, one worker at a time: delivers `NewResolution`
    /// with the fresh channel to the next unsignaled worker, which pauses
    /// it. When the last worker is signaled the protocol moves on to the
    /// draining step.
    pub fn signal_worker(&mut self)
        requires
            old(self).wf(),
            old(self).phase is Signaling,
            old(self).progress < old(self).workers@.len(),
        ensures
            final(self).wf(),
            final(self).progress == old(self).progress + 1,
            final(self).phase == (if old(self).progress + 1 == old(self).workers@.len() {
                Phase::Draining
            } else {
                Phase::Signaling
            }),
            final(self).workers@ == old(self).workers@.update(
                old(self).progress as int,
                signaled_worker(
                    old(self).workers@[old(self).progress as int],
                    old(self).pending_w,
                    old(self).pending_h,
                    (old(self).chan_gen + 1) as u64,
                ),
            ),
            final(self).buffer == old(self).buffer,
            final(self).data == old(self).data,
            final(self).staged == old(self).staged,
            final(self).chan_gen == old(self).chan_gen,
            final(self).pending_w == old(self).pending_w,
            final(self).pending_h == old(self).pending_h,
            final(self).rate == old(self).rate,
            final(self).dropped == old(self).dropped,
            final(self).applied == old(self).applied,
            final(self).low_cycles == old(self).low_cycles,
            final(self).policy == old(self).policy,
            final(self).min_budget == old(self).min_budget,
    {
        let i = self.progress;
        let n = self.workers.len();
        let mut w = self.workers[i];
        let msg = ControlMessage::NewResolution {
            width: self.pending_w,
            height: self.pending_h,
            channel: self.chan_gen + 1,
        };
        let _a = w.step(PollOutcome::Message(msg));
        self.workers.set(i, w);
        self.progress = i + 1;
        if self.progress == n {
            self.phase = Phase::Draining;
        }
    }

    /// Protocol step two: drains and discards everything pending on the
    /// old data channel. Those requests describe coordinates valid only
    /// for the old buffer and must not be replayed against the new one.
    /// Afterwards the old channel holds zero requests.
    pub fn drain_old(&mut self) -> (discarded: usize)
        requires
            old(self).wf(),
            old(self).phase is Draining,
        ensures
            final(self).wf(),
            final(self).phase is Swapping,
            discarded == old(self).data@.len(),
            final(self).data@.len() == 0,
            final(self).data.cap() == old(self).data.cap(),
            final(self).buffer == old(self).buffer,
            final(self).workers == old(self).workers,
            final(self).staged == old(self).staged,
            final(self).chan_gen == old(self).chan_gen,
            final(self).pending_w == old(self).pending_w,
            final(self).pending_h == old(self).pending_h,
            final(self).rate == old(self).rate,
            final(self).dropped == old(self).dropped,
            final(self).applied == old(self).applied,
            final(self).low_cycles == old(self).low_cycles,
            final(self).policy == old(self).policy,
            final(self).min_budget == old(self).min_budget,
    {
        let n = self.data.purge();
        self.phase = Phase::Swapping;
        n
    }

    /// Protocol step three: replaces the buffer, preserving the overlap
    /// and filling newly exposed pixels with opaque white. It demands an
    /// empty old channel — the correctness property that steps one and two
    /// must have established — and every worker paused at the pending
    /// resolution.
    pub fn swap_buffer(&mut self)
        requires
            old(self).wf(),
            old(self).phase is Swapping,
            old(self).data@.len() == 0,
        ensures
            final(self).wf(),
            final(self).phase is Resuming,
            final(self).progress == 0,
            final(self).buffer.wf(),
            final(self).buffer.width == old(self).pending_w,
            final(self).buffer.height == old(self).pending_h,
            forall|i: int, j: int|
                0 <= i < old(self).pending_w && 0 <= j < old(self).pending_h
                    ==> #[trigger] final(self).buffer.pix(i, j) == (if i < old(self).buffer.width
                    && j < old(self).buffer.height {
                    old(self).buffer.pix(i, j)
                } else {
                    crate::pixel::white()
                }),
            final(self).data@.len() == 0,
            final(self).data == old(self).data,
            final(self).workers == old(self).workers,
            final(self).staged == old(self).staged,
            final(self).chan_gen == old(self).chan_gen,
            final(self).pending_w == old(self).pending_w,
            final(self).pending_h == old(self).pending_h,
            final(self).rate == old(self).rate,
            final(self).dropped == old(self).dropped,
            final(self).applied == old(self).applied,
            final(self).low_cycles == old(self).low_cycles,
            final(self).policy == old(self).policy,
            final(self).min_budget == old(self).min_budget,
    {
        let w = self.pending_w;
        let h = self.pending_h;
        self.buffer.scale(w, h);
        self.progress = 0;
        self.phase = Phase::Resuming;
    }

    /// Protocol step four, one worker at a time: delivers `Resume` to the
    /// next paused worker, which reactivates it against the new resolution
    /// and the fresh channel. When the last worker has resumed, the
    /// protocol moves on to installing the channel.
    pub fn resume_worker(&mut self)
        requires
            old(self).wf(),
            old(self).phase is Resuming,
            old(self).progress < old(self).workers@.len(),
        ensures
            final(self).wf(),
            final(self).progress == old(self).progress + 1,
            final(self).phase == (if old(self).progress + 1 == old(self).workers@.len() {
                Phase::Installing
            } else {
                Phase::Resuming
            }),
            final(self).workers@ == old(self).workers@.update(
                old(self).progress as int,
                resumed_worker(old(self).workers@[old(self).progress as int]),
            ),
            final(self).buffer == old(self).buffer,
            final(self).data == old(self).data,
            final(self).staged == old(self).staged,
            final(self).chan_gen == old(self).chan_gen,
            final(self).pending_w == old(self).pending_w,
            final(self).pending_h == old(self).pending_h,
            final(self).rate == old(self).rate,
            final(self).dropped == old(self).dropped,
            final(self).applied == old(self).applied,
            final(self).low_cycles == old(self).low_cycles,
            final(self).policy == old(self).policy,
            final(self).min_budget == old(self).min_budget,
    {
        let i = self.progress;
        let n = self.workers.len();
        let mut w = self.workers[i];
        let _a = w.step(PollOutcome::Message(ControlMessage::Resume));
        self.workers.set(i, w);
        self.progress = i + 1;
        if self.progress == n {
            self.phase = Phase::Installing;
        }
    }

    /// Protocol step five: the staged channel, already fed by the resumed
    /// workers, becomes the consumer's read source, and the resize is
    /// complete.
    pub fn install_channel(&mut self)
        requires
            old(self).wf(),
            old(self).phase is Installing,
        ensures
            final(self).wf(),
            final(self).phase is Idle,
            final(self).chan_gen == old(self).chan_gen + 1,
            final(self).staged is None,
            old(self).staged matches Some(q) && final(self).data == q,
            final(self).buffer == old(self).buffer,
            final(self).workers == old(self).workers,
            final(self).pending_w == old(self).pending_w,
            final(self).pending_h == old(self).pending_h,
            final(self).rate == old(self).rate,
            final(self).dropped == old(self).dropped,
            final(self).applied == old(self).applied,
            final(self).low_cycles == old(self).low_cycles,
            final(self).policy == old(self).policy,
            final(self).min_budget == old(self).min_budget,
    {
        let q = self.staged.take();
        match q {
            Some(fresh) => {
                self.data = fresh;
            },
            None => {
                proof {
                    assert(false);
                }
            },
        }
        self.chan_gen = self.chan_gen + 1;
        self.phase = Phase::Idle;
    }

    /// Whether an offer from a worker in state `w` finds room in the
    /// channel that worker holds.
    pub open spec fn offer_accepted(self, w: WorkerState) -> bool {
        if w.channel == self.chan_gen {
            self.data@.len() < self.data.cap()
        } else {
            self.staged matches Some(q) && q@.len() < q.cap()
        }
    }

    /// Offers one externally produced request to the data channel — the
    /// path a test harness or an outside producer uses. A request outside
    /// the buffer's bounds is rejected as out of bounds; an in-bounds
    /// request is queued, or handled by the configured channel-full
    /// policy.
    pub fn inject(&mut self, req: DrawRequest) -> (r: Result<SendOutcome, OutOfBounds>)
        requires
            old(self).wf(),
            old(self).phase is Idle,
        ensures
            final(self).wf(),
            final(self).phase is Idle,
            r is Err <==> !req.in_bounds(
                old(self).buffer.width as int,
                old(self).buffer.height as int,
            ),
            r is Err ==> r == Err::<SendOutcome, OutOfBounds>(out_of_bounds(req.x, req.y))
                && *final(self) == *old(self),
            r is Ok ==> (r == Ok::<SendOutcome, OutOfBounds>(SendOutcome::Sent) <==> old(
                self,
            ).data@.len() < old(self).data.cap()),
            r == Ok::<SendOutcome, OutOfBounds>(SendOutcome::Sent) ==> final(self).data@ == old(
                self,
            ).data@.push(req) && final(self).dropped == old(self).dropped,
            r == Ok::<SendOutcome, OutOfBounds>(SendOutcome::Dropped) ==> old(self).policy is Drop
                && final(self).data == old(self).data && final(self).dropped == old(
                self,
            ).dropped.saturating_add(1),
            r == Ok::<SendOutcome, OutOfBounds>(SendOutcome::WouldBlock) ==> old(
                self,
            ).policy is Block && *final(self) == *old(self),
            final(self).buffer == old(self).buffer,
            final(self).workers == old(self).workers,
            final(self).staged == old(self).staged,
            final(self).chan_gen == old(self).chan_gen,
            final(self).rate == old(self).rate,
            final(self).applied == old(self).applied,
            final(self).low_cycles == old(self).low_cycles,
            final(self).policy == old(self).policy,
            final(self).min_budget == old(self).min_budget,
            final(self).data.cap() == old(self).data.cap(),
    {
        if !(req.x < self.buffer.width && req.y < self.buffer.height) {
            return Err(OutOfBounds { x: req.x, y: req.y });
        }
        let accepted = self.data.try_send(req);
        if accepted {
            Ok(SendOutcome::Sent)
        } else {
            match self.policy {
                ChannelPolicy::Drop => {
                    self.dropped = self.dropped.saturating_add(1);
                    Ok(SendOutcome::Dropped)
                },
                ChannelPolicy::Block => Ok(SendOutcome::WouldBlock),
            }
        }
    }

    /// Grants worker `i` one production turn with the given seed — the
    /// deterministic model of one worker-thread iteration, for any
    /// interleaving of turns. An active worker synthesizes its next
    /// request and offers it to the channel it holds: the consumer's
    /// current channel outside a resize, the staged channel once the
    /// worker has been signaled and resumed.
    pub fn produce(&mut self, i: usize, seed: u64) -> (r: ProduceOutcome)
        requires
            old(self).wf(),
            i < old(self).workers@.len(),
        ensures
            final(self).wf(),
            final(self).buffer == old(self).buffer,
            final(self).phase == old(self).phase,
            final(self).chan_gen == old(self).chan_gen,
            final(self).rate == old(self).rate,
            final(self).applied == old(self).applied,
            final(self).progress == old(self).progress,
            final(self).pending_w == old(self).pending_w,
            final(self).pending_h == old(self).pending_h,
            final(self).policy == old(self).policy,
            final(self).min_budget == old(self).min_budget,
            final(self).low_cycles == old(self).low_cycles,
            final(self).workers@.len() == old(self).workers@.len(),
            forall|j: int|
                0 <= j < old(self).workers@.len() && j != i ==> final(self).workers@[j] == old(
                    self,
                ).workers@[j],
            r == ProduceOutcome::Idle <==> !can_produce(old(self).workers@[i as int]),
            r == ProduceOutcome::Idle ==> *final(self) == *old(self),
            r == ProduceOutcome::WouldBlock ==> old(self).policy is Block && *final(self) == *old(
                self,
            ),
            can_produce(old(self).workers@[i as int]) ==> (r == ProduceOutcome::Sent <==> old(
                self,
            ).offer_accepted(old(self).workers@[i as int])),
            r == ProduceOutcome::Sent || r == ProduceOutcome::Dropped ==> final(self).workers@[i as int] == bumped_worker(old(self).workers@[i as int]),
            r == ProduceOutcome::Sent ==> final(self).dropped == old(self).dropped && (if old(
                self,
            ).workers@[i as int].channel == old(self).chan_gen {
                final(self).data@ == old(self).data@.push(
                    next_request(old(self).workers@[i as int], seed),
                ) && final(self).staged == old(self).staged
            } else {
                final(self).data == old(self).data && (old(self).staged matches Some(q0)
                    && final(self).staged matches Some(q1) && q1@ == q0@.push(
                    next_request(old(self).workers@[i as int], seed),
                ) && q1.cap() == q0.cap())
            }),
            r == ProduceOutcome::Dropped ==> old(self).policy is Drop && final(self).data == old(
                self,
            ).data && final(self).staged == old(self).staged && final(self).dropped == old(
                self,
            ).dropped.saturating_add(1),
    {
        let w0 = self.workers[i];
        if !(w0.active && w0.cur_x > 0 && w0.cur_y > 0 && w0.counter < u64::MAX) {
            return ProduceOutcome::Idle;
        }
        let mut w = w0;
        let req = w.synthesize(seed);
        if w0.channel == self.chan_gen {
            let accepted = self.data.try_send(req);
            if accepted {
                self.workers.set(i, w);
                ProduceOutcome::Sent
            } else {
                match self.policy {
                    ChannelPolicy::Drop => {
                        self.workers.set(i, w);
                        self.dropped = self.dropped.saturating_add(1);
                        ProduceOutcome::Dropped
                    },
                    ChannelPolicy::Block => ProduceOutcome::WouldBlock,
                }
            }
        } else {
            match &mut self.staged {
                Some(q) => {
                    let accepted = q.try_send(req);
                    if accepted {
                        self.workers.set(i, w);
                        ProduceOutcome::Sent
                    } else {
                        match self.policy {
                            ChannelPolicy::Drop => {
                                self.workers.set(i, w);
                                self.dropped = self.dropped.saturating_add(1);
                                ProduceOutcome::Dropped
                            },
                            ChannelPolicy::Block => ProduceOutcome::WouldBlock,
                        }
                    }
                },
                None => {
                    proof {
                        assert(false);
                    }
                    ProduceOutcome::Idle
                },
            }
        }
    }

    /// One consumer cycle: computes the drain budget from the
    /// cycle-duration hint, drains up to that many pending requests into
    /// the buffer (stopping early on an empty channel), derives the
    /// measured throughput from the elapsed drain time the host reports,
    /// and feeds the rate controller. It never applies more than the
    /// budget, applies each drained request exactly once, in channel
    /// order, and never writes out of bounds.
    #[verifier::loop_isolation(false)]
    pub fn tick(&mut self, dt_micros: u64, elapsed_micros: u64) -> (rep: TickReport)
        requires
            old(self).wf(),
            old(self).phase is Idle,
        ensures
            final(self).wf(),
            final(self).phase is Idle,
            rep.budget as int == drain_budget(
                dt_micros,
                old(self).rate.target_rate,
                old(self).min_budget,
            ),
            rep.drained as int == vstd::math::min(
                rep.budget as int,
                old(self).data@.len() as int,
            ),
            rep.drained <= rep.budget,
            final(self).data@ == old(self).data@.skip(rep.drained as int),
            final(self).buffer.width == old(self).buffer.width,
            final(self).buffer.height == old(self).buffer.height,
            forall|x: int, y: int|
                0 <= x < old(self).buffer.width && 0 <= y < old(self).buffer.height
                    ==> #[trigger] final(self).buffer.pix(x, y) == pix_after(
                    old(self).buffer,
                    old(self).data@.take(rep.drained as int),
                    x,
                    y,
                ),
            rep.actual_rate as int == measured_rate(rep.drained as int, elapsed_micros),
            final(self).rate.floor == old(self).rate.floor,
            final(self).rate.actual_rate == rep.actual_rate,
            final(self).rate.target_rate as int == rate_update(
                old(self).rate.target_rate as int,
                rep.actual_rate as int,
                old(self).rate.floor as int,
            ),
            rep.target_rate == final(self).rate.target_rate,
            final(self).applied == old(self).applied.saturating_add(rep.drained as u64),
            final(self).low_cycles == (if 10 * rep.drained < rep.budget {
                old(self).low_cycles.saturating_add(1)
            } else {
                0u32
            }),
            rep.degraded == (final(self).low_cycles >= DEGRADED_CYCLES),
            final(self).workers == old(self).workers,
            final(self).staged == old(self).staged,
            final(self).chan_gen == old(self).chan_gen,
            final(self).dropped == old(self).dropped,
            final(self).policy == old(self).policy,
            final(self).min_budget == old(self).min_budget,
            final(self).data.cap() == old(self).data.cap(),
    {
        let budget = compute_budget(dt_micros, self.rate.target_rate, self.min_budget);
        let ghost orig = *self;
        let mut drained: usize = 0;
        while (drained as u64) < budget && self.data.len() > 0
            invariant
                self.buffer.wf(),
                self.data.wf(),
                self.buffer.width == orig.buffer.width,
                self.buffer.height == orig.buffer.height,
                drained <= orig.data@.len(),
                drained as u64 <= budget,
                self.data@ == orig.data@.skip(drained as int),
                self.data.cap() == orig.data.cap(),
                forall|x: int, y: int|
                    0 <= x < orig.buffer.width && 0 <= y < orig.buffer.height
                        ==> #[trigger] self.buffer.pix(x, y) == pix_after(
                        orig.buffer,
                        orig.data@.take(drained as int),
                        x,
                        y,
                    ),
                self.workers == orig.workers,
                self.staged == orig.staged,
                self.chan_gen == orig.chan_gen,
                self.rate == orig.rate,
                self.policy == orig.policy,
                self.min_budget == orig.min_budget,
                self.phase == orig.phase,
                self.progress == orig.progress,
                self.pending_w == orig.pending_w,
                self.pending_h == orig.pending_h,
                self.dropped == orig.dropped,
                self.applied == orig.applied,
                self.low_cycles == orig.low_cycles,
            decreases orig.data@.len() - drained,
        {
            let m = self.data.try_recv();
            match m {
                Some(req) => {
                    proof {
                        assert(orig.data@.skip(drained as int)[0] == orig.data@[drained as int]);
                        assert(orig.data@[drained as int].in_bounds(
                            orig.buffer.width as int,
                            orig.buffer.height as int,
                        ));
                    }
                    self.buffer.put_pixel(req.x, req.y, req.color);
                    let ghost prev = drained as int;
                    drained = drained + 1;
                    proof {
                        assert(self.data@ =~= orig.data@.skip(drained as int));
                        let taken = orig.data@.take(drained as int);
                        assert(taken.len() == drained);
                        assert(taken[prev] == orig.data@[prev]);
                        assert(taken.drop_last() =~= orig.data@.take(prev));
                    }
                },
                None => {
                    proof {
                        assert(false);
                    }
                },
            }
        }
        proof {
            if (drained as u64) < budget {
                assert(self.data@.len() == 0);
                assert(drained == orig.data@.len());
            }
        }
        let actual = compute_rate(drained, elapsed_micros);
        self.rate.update(actual);
        self.applied = self.applied.saturating_add(drained as u64);
        let starved = (drained as u128) * 10 < (budget as u128);
        if starved {
            self.low_cycles = self.low_cycles.saturating_add(1);
        } else {
            self.low_cycles = 0;
        }
        let degraded = self.low_cycles >= DEGRADED_CYCLES;
        TickReport {
            drained,
            budget,
            actual_rate: actual,
            target_rate: self.rate.target_rate,
            degraded,
        }
    }

    /// The whole resize protocol, in order: signal every worker (each
    /// pauses and takes the fresh channel), drain and discard the stale
    /// writes, rescale the buffer, resume every worker, install the fresh
    /// channel. Steps one and two complete for all workers before the
    /// buffer is touched; no worker resumes before the buffer has its new
    /// size. Returns how many stale requests were discarded.
    pub fn resize(&mut self, new_w: u32, new_h: u32) -> (discarded: usize)
        requires
            old(self).wf(),
            old(self).phase is Idle,
            4 * new_w * new_h <= usize::MAX,
            old(self).chan_gen < u64::MAX,
        ensures
            final(self).wf(),
            final(self).phase is Idle,
            discarded == old(self).data@.len(),
            final(self).data@.len() == 0,
            final(self).data.cap() == old(self).data.cap(),
            final(self).chan_gen == old(self).chan_gen + 1,
            final(self).buffer.width == new_w,
            final(self).buffer.height == new_h,
            forall|i: int, j: int|
                0 <= i < new_w && 0 <= j < new_h ==> #[trigger] final(self).buffer.pix(i, j) == (
                if i < old(self).buffer.width && j < old(self).buffer.height {
                    old(self).buffer.pix(i, j)
                } else {
                    crate::pixel::white()
                }),
            final(self).workers@.len() == old(self).workers@.len(),
            forall|k: int|
                0 <= k < old(self).workers@.len() ==> #[trigger] final(self).workers@[k]
                    == resumed_worker(
                    signaled_worker(
                        old(self).workers@[k],
                        new_w,
                        new_h,
                        (old(self).chan_gen + 1) as u64,
                    ),
                ),
            final(self).rate == old(self).rate,
            final(self).dropped == old(self).dropped,
            final(self).applied == old(self).applied,
            final(self).policy == old(self).policy,
            final(self).min_budget == old(self).min_budget,
            final(self).low_cycles == old(self).low_cycles,
    {
        let ghost orig = *self;
        self.begin_resize(new_w, new_h);
        let n = self.workers.len();
        while self.progress < n
            invariant
                self.wf(),
                n == self.workers@.len(),
                n == orig.workers@.len(),
                self.progress <= n,
                self.progress < n ==> self.phase is Signaling,
                self.progress == n ==> self.phase is Draining,
                self.pending_w == new_w,
                self.pending_h == new_h,
                self.chan_gen == orig.chan_gen,
                orig.chan_gen < u64::MAX,
                self.buffer == orig.buffer,
                self.data == orig.data,
                self.staged matches Some(q) && q@.len() == 0 && q.cap() == orig.data.cap(),
                self.rate == orig.rate,
                self.dropped == orig.dropped,
                self.applied == orig.applied,
                self.low_cycles == orig.low_cycles,
                self.policy == orig.policy,
                self.min_budget == orig.min_budget,
                forall|k: int|
                    0 <= k < self.progress ==> #[trigger] self.workers@[k] == signaled_worker(
                        orig.workers@[k],
                        new_w,
                        new_h,
                        (orig.chan_gen + 1) as u64,
                    ),
                forall|k: int|
                    self.progress <= k < n ==> #[trigger] self.workers@[k] == orig.workers@[k],
            decreases n - self.progress,
        {
            self.signal_worker();
        }
        let discarded = self.drain_old();
        self.swap_buffer();
        let ghost swapped = *self;
        while self.progress < n
            invariant
                self.wf(),
                n == self.workers@.len(),
                n == orig.workers@.len(),
                self.progress <= n,
                self.progress < n ==> self.phase is Resuming,
                self.progress == n ==> self.phase is Installing,
                self.pending_w == new_w,
                self.pending_h == new_h,
                self.chan_gen == orig.chan_gen,
                orig.chan_gen < u64::MAX,
                self.buffer == swapped.buffer,
                self.data == swapped.data,
                self.data@.len() == 0,
                self.data.cap() == orig.data.cap(),
                self.staged matches Some(q) && q@.len() == 0 && q.cap() == orig.data.cap(),
                self.rate == orig.rate,
                self.dropped == orig.dropped,
                self.applied == orig.applied,
                self.low_cycles == orig.low_cycles,
                self.policy == orig.policy,
                self.min_budget == orig.min_budget,
                forall|k: int|
                    0 <= k < self.progress ==> #[trigger] self.workers@[k] == resumed_worker(
                        signaled_worker(
                            orig.workers@[k],
                            new_w,
                            new_h,
                            (orig.chan_gen + 1) as u64,
                        ),
                    ),
                forall|k: int|
                    self.progress <= k < n ==> #[trigger] self.workers@[k] == signaled_worker(
                        orig.workers@[k],
                        new_w,
                        new_h,
                        (orig.chan_gen + 1) as u64,
                    ),
            decreases n - self.progress,
        {
            self.resume_worker();
        }
        self.install_channel();
        discarded
    }

    /// The channel is drained before the buffer swap: whenever the
    /// protocol stands immediately before the swap step, the old data
    /// channel contains zero pending requests — a non-empty channel there
    /// would mean a worker produced after the drain, which the pause in
    /// the signaling step rules out.
    pub proof fn lemma_channel_drained_before_swap(self)
        requires
            self.wf(),
            self.phase is Swapping,
        ensures
            self.data@.len() == 0,
    {
    }

    /// No stale coordinates: in a well-formed pipeline every request
    /// pending in the consumer's channel lies inside the installed
    /// buffer's bounds, and outside a resize every active worker holds the
    /// buffer's own resolution. Every operation of the pipeline preserves
    /// well-formedness, so after a resize completes no subsequently
    /// applied draw request references the old bounds, for any
    /// interleaving of worker turns.
    pub proof fn lemma_no_stale_writes(self)
        requires
            self.wf(),
        ensures
            forall|k: int|
                0 <= k < self.data@.len() ==> (#[trigger] self.data@[k]).in_bounds(
                    self.buffer.width as int,
                    self.buffer.height as int,
                ),
            self.phase is Idle ==> forall|i: int|
                0 <= i < self.workers@.len() && (#[trigger] self.workers@[i]).active
                    ==> self.workers@[i].cur_x == self.buffer.width && self.workers@[i].cur_y
                    == self.buffer.height,
    {
    }

    /// A point-in-time copy of the buffer for the rendering collaborator.
    pub fn snapshot(&self) -> (b: Buffer)
        requires
            self.wf(),
        ensures
            b.wf(),
            b.same_view(self.buffer),
    {
        self.buffer.snapshot()
    }
}

} // verus!
