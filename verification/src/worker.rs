//! The worker: an independently scheduled producer of draw requests. It is
//! a state machine over two states, active and paused, driven by control
//! messages; while active it synthesizes pixel writes against its current
//! notion of the resolution.

use vstd::prelude::*;

use crate::pixel::DrawRequest;
use crate::pixel::Rgba8;

verus! {

/// A command sent from the coordinator to one worker. Exactly one is in
/// flight to a given worker at a time under the resize protocol.
#[derive(Clone, Copy, Debug, PartialEq, Eq, Structural)]
pub enum ControlMessage {
    /// New target resolution plus the handle of the fresh outbound channel
    /// that feeds the post-resize consumer. Receipt pauses the worker.
    NewResolution { width: u32, height: u32, channel: u64 },
    /// Stop producing until resumed.
    Pause,
    /// Produce again, from the current resolution into the current channel.
    Resume,
    /// Terminate the worker.
    Shutdown,
}

/// What one non-blocking poll of the control channel observed.
#[derive(Clone, Copy, Debug, PartialEq, Eq, Structural)]
pub enum PollOutcome {
    /// No message pending.
    Empty,
    /// One control message.
    Message(ControlMessage),
    /// The controlling side dropped the channel: a normal termination
    /// signal, not an error.
    Disconnected,
}

/// What the worker does next after processing one poll.
#[derive(Clone, Copy, Debug, PartialEq, Eq, Structural)]
pub enum WorkerAction {
    /// Synthesize and send one draw request this iteration.
    Produce,
    /// Paused with nothing pending: sleep briefly and re-poll.
    Sleep,
    /// A control message was consumed: poll again before producing.
    KeepPolling,
    /// Exit the worker loop promptly.
    Terminate,
}

/// The private state of one worker: its current target resolution, its
/// activity flag, the handle of its outbound channel, a running write
/// counter, and its color bias.
#[derive(Clone, Copy, Debug, PartialEq, Eq, Structural)]
pub struct WorkerState {
    pub cur_x: u32,
    pub cur_y: u32,
    pub active: bool,
    pub channel: u64,
    pub counter: u64,
    pub base_r: u8,
    pub base_g: u8,
    pub base_b: u8,
}

/// The draw request a worker synthesizes from a seed at a given write
/// count: coordinates folded into the current resolution, channels scaled
/// into the worker's color bias, alpha half-opaque.
pub open spec fn spec_synth(seed: u64, counter: u64, w: u32, h: u32, br: u8, bg: u8, bb: u8) -> DrawRequest
    recommends
        w > 0,
        h > 0,
{
    let val = seed ^ counter;
    DrawRequest {
        x: ((val as int) % (w as int)) as u32,
        y: ((val as int) % (h as int)) as u32,
        color: Rgba8 {
            r: if br > 0 {
                ((val as int) % (br as int)) as u8
            } else {
                0
            },
            g: if bg > 0 {
                ((val as int) % (bg as int)) as u8
            } else {
                0
            },
            b: if bb > 0 {
                ((val as int) % (bb as int)) as u8
            } else {
                0
            },
            a: 128,
        },
    }
}

impl WorkerState {
    /// A worker starts active, at the resolution it was started with.
    pub fn new(width: u32, height: u32, channel: u64, base: (u8, u8, u8)) -> (w: WorkerState)
        ensures
            w.cur_x == width,
            w.cur_y == height,
            w.active,
            w.channel == channel,
            w.counter == 0,
            w.base_r == base.0,
            w.base_g == base.1,
            w.base_b == base.2,
    {
        WorkerState {
            cur_x: width,
            cur_y: height,
            active: true,
            channel: channel,
            counter: 0,
            base_r: base.0,
            base_g: base.1,
            base_b: base.2,
        }
    }

    /// One poll of the control channel: the worker's whole transition
    /// relation. A new resolution pauses the worker and redirects its
    /// outbound channel; resume reactivates it; shutdown or a disconnect
    /// terminates it; silence lets an active worker produce and a paused
    /// one sleep.
    pub fn step(&mut self, poll: PollOutcome) -> (a: WorkerAction)
        ensures
            poll is Empty ==> *final(self) == *old(self) && a == (if old(self).active {
                WorkerAction::Produce
            } else {
                WorkerAction::Sleep
            }),
            poll matches PollOutcome::Message(ControlMessage::NewResolution {
                width,
                height,
                channel,
            }) ==> {
                &&& final(self).cur_x == width
                &&& final(self).cur_y == height
                &&& !final(self).active
                &&& final(self).channel == channel
                &&& final(self).counter == old(self).counter
                &&& final(self).base_r == old(self).base_r
                &&& final(self).base_g == old(self).base_g
                &&& final(self).base_b == old(self).base_b
                &&& a == WorkerAction::KeepPolling
            },
            poll == PollOutcome::Message(ControlMessage::Pause) ==> {
                &&& *final(self) == (WorkerState { active: false, ..*old(self) })
                &&& a == WorkerAction::KeepPolling
            },
            poll == PollOutcome::Message(ControlMessage::Resume) ==> {
                &&& *final(self) == (WorkerState { active: true, ..*old(self) })
                &&& a == WorkerAction::Produce
            },
            poll == PollOutcome::Message(ControlMessage::Shutdown) || poll
                == PollOutcome::Disconnected ==> *final(self) == *old(self) && a
                == WorkerAction::Terminate,
    {
        match poll {
            PollOutcome::Empty => {
                if self.active {
                    WorkerAction::Produce
                } else {
                    WorkerAction::Sleep
                }
            },
            PollOutcome::Message(ControlMessage::NewResolution { width, height, channel }) => {
                self.cur_x = width;
                self.cur_y = height;
                self.active = false;
                self.channel = channel;
                WorkerAction::KeepPolling
            },
            PollOutcome::Message(ControlMessage::Pause) => {
                self.active = false;
                WorkerAction::KeepPolling
            },
            PollOutcome::Message(ControlMessage::Resume) => {
                self.active = true;
                WorkerAction::Produce
            },
            PollOutcome::Message(ControlMessage::Shutdown) => WorkerAction::Terminate,
            PollOutcome::Disconnected => WorkerAction::Terminate,
        }
    }

    /// Synthesizes the next draw request from the given seed, spending one
    /// write count. The request always lies inside the worker's current
    /// resolution.
    pub fn synthesize(&mut self, seed: u64) -> (req: DrawRequest)
        requires
            old(self).cur_x > 0,
            old(self).cur_y > 0,
            old(self).counter < u64::MAX,
        ensures
            *final(self) == (WorkerState { counter: (old(self).counter + 1) as u64, ..*old(self) }),
            req == spec_synth(
                seed,
                final(self).counter,
                old(self).cur_x,
                old(self).cur_y,
                old(self).base_r,
                old(self).base_g,
                old(self).base_b,
            ),
            req.x < old(self).cur_x,
            req.y < old(self).cur_y,
    {
        self.counter = self.counter + 1;
        let val: u64 = seed ^ self.counter;
        let x: u32 = (val % (self.cur_x as u64)) as u32;
        let y: u32 = (val % (self.cur_y as u64)) as u32;
        let r: u8 = if self.base_r > 0 {
            (val % (self.base_r as u64)) as u8
        } else {
            0
        };
        let g: u8 = if self.base_g > 0 {
            (val % (self.base_g as u64)) as u8
        } else {
            0
        };
        let b: u8 = if self.base_b > 0 {
            (val % (self.base_b as u64)) as u8
        } else {
            0
        };
        DrawRequest { x, y, color: Rgba8 { r, g, b, a: 128 } }
    }

    /// Synthesizes the next draw request from a fresh random seed, or
    /// `None` when the resolution has a zero side (nothing to paint) or
    /// the write counter is exhausted.
    pub fn produce_request(&mut self) -> (req: Option<DrawRequest>)
        ensures
            req is Some <==> old(self).cur_x > 0 && old(self).cur_y > 0 && old(self).counter
                < u64::MAX,
            req is None ==> *final(self) == *old(self),
            req matches Some(d) ==> {
                &&& d.x < old(self).cur_x
                &&& d.y < old(self).cur_y
                &&& *final(self) == (WorkerState {
                    counter: (old(self).counter + 1) as u64,
                    ..*old(self)
                })
            },
    {
        if self.cur_x > 0 && self.cur_y > 0 && self.counter < u64::MAX {
            let seed = fresh_seed();
            Some(self.synthesize(seed))
        } else {
            None
        }
    }
}

/// The per-worker color bias palette: seven visually distinguishable
/// bases, cycling with the worker index.
pub open spec fn spec_palette(i: int) -> (u8, u8, u8) {
    let k = i % 7;
    if k == 0 {
        (255u8, 0u8, 0u8)
    } else if k == 1 {
        (0u8, 255u8, 0u8)
    } else if k == 2 {
        (255u8, 255u8, 0u8)
    } else if k == 3 {
        (0u8, 0u8, 255u8)
    } else if k == 4 {
        (255u8, 0u8, 255u8)
    } else if k == 5 {
        (0u8, 255u8, 255u8)
    } else {
        (255u8, 255u8, 255u8)
    }
}

/// The color bias assigned to worker `i`.
pub fn palette(i: usize) -> (c: (u8, u8, u8))
    ensures
        c == spec_palette(i as int),
{
    let k = i % 7;
    if k == 0 {
        (255, 0, 0)
    } else if k == 1 {
        (0, 255, 0)
    } else if k == 2 {
        (255, 255, 0)
    } else if k == 3 {
        (0, 0, 255)
    } else if k == 4 {
        (255, 0, 255)
    } else if k == 5 {
        (0, 255, 255)
    } else {
        (255, 255, 255)
    }
}

/// Relies on rand::Rng::gen_range over the half-open range below: the
/// sample always lies inside the range, whatever the generator state; the
/// range is never empty, so the call cannot panic. Nothing more is claimed
/// of a random value.
#[verifier::external_body]
fn fresh_seed() -> (s: u64)
    ensures
        s < 0x8000_0000u64,
{
    let mut rng = rand::thread_rng();
    rand::Rng::gen_range(&mut rng, 0u64..0x8000_0000u64)
}

} // verus!
