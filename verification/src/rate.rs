//! The rate controller: keeps the consumer's per-cycle drain budget close
//! to the sustainable producer throughput without oscillating. A deviation
//! of more than an order of magnitude snaps the target to half the
//! measured rate; otherwise the target moves a proportional step toward
//! the measured rate, clamped so it never crosses it, and never below the
//! floor of one request per active worker.

use vstd::prelude::*;

use vstd::math::abs;
use vstd::math::max;
use vstd::math::max3;
use vstd::math::min;

verus! {

/// The value the controller converges to under a constant measured rate
/// `a`: the measured rate itself, never below the floor `f`.
pub open spec fn sustained(a: int, f: int) -> int {
    max(a, f)
}

/// One control cycle: the next target from the current target `t`, the
/// measured rate `a`, and the floor `f`.
pub open spec fn rate_update(t: int, a: int, f: int) -> int {
    if 10 * a < t || a > 10 * t {
        max(a / 2, f)
    } else if a > t {
        min(t + max(t / 10, 1), a)
    } else if a < t {
        max3(t - max(t / 10, 1), a, f)
    } else {
        t
    }
}

/// The target after `k` cycles under a constant measured rate.
pub open spec fn rate_iter(t0: int, a: int, f: int, k: nat) -> int
    decreases k,
{
    if k == 0 {
        t0
    } else {
        rate_update(rate_iter(t0, a, f, (k - 1) as nat), a, f)
    }
}

/// The controller never throttles below the floor.
pub proof fn lemma_rate_update_floor(t: int, a: int, f: int)
    requires
        1 <= f <= t,
        0 <= a,
    ensures
        f <= rate_update(t, a, f),
{
}

/// Non-oscillation: the sustainable value is a fixed point, so once the
/// target reaches it, a constant load never moves it again.
pub proof fn lemma_rate_fixed_point(a: int, f: int)
    requires
        1 <= f,
        0 <= a,
    ensures
        rate_update(sustained(a, f), a, f) == sustained(a, f),
{
}

/// Every cycle off the sustainable value moves the target strictly closer
/// to it.
pub proof fn lemma_rate_progress(t: int, a: int, f: int)
    requires
        1 <= f <= t,
        0 <= a,
        t != sustained(a, f),
    ensures
        f <= rate_update(t, a, f),
        abs(rate_update(t, a, f) - sustained(a, f)) < abs(t - sustained(a, f)),
{
    let v = sustained(a, f);
    let u = rate_update(t, a, f);
    if 10 * a < t {
        if a >= f {
            assert(0 <= a / 2 <= a);
            assert(u <= a);
            assert(t - a > 9 * a);
        } else {
            assert(a / 2 <= a < f);
            assert(u == f);
        }
    } else if a > 10 * t {
        assert(a / 2 >= 5 * t);
        assert(f <= t < a / 2);
        assert(u == a / 2);
        assert(a - a / 2 <= a / 2 + 1);
    }
}

/// Unrolling one cycle from the front of the iteration.
proof fn lemma_iter_shift(t0: int, a: int, f: int, k: nat)
    ensures
        rate_iter(t0, a, f, (k + 1) as nat) == rate_iter(rate_update(t0, a, f), a, f, k),
    decreases k,
{
    if k == 0 {
        assert(rate_iter(t0, a, f, 1) == rate_update(rate_iter(t0, a, f, 0), a, f));
    } else {
        lemma_iter_shift(t0, a, f, (k - 1) as nat);
        assert(rate_iter(t0, a, f, (k + 1) as nat) == rate_update(rate_iter(t0, a, f, k), a, f));
        assert(rate_iter(rate_update(t0, a, f), a, f, k) == rate_update(
            rate_iter(rate_update(t0, a, f), a, f, (k - 1) as nat),
            a,
            f,
        ));
    }
}

/// There is a cycle count at which the iteration has reached the
/// sustainable value.
proof fn lemma_rate_reaches(t0: int, a: int, f: int) -> (n: nat)
    requires
        1 <= f <= t0,
        0 <= a,
    ensures
        rate_iter(t0, a, f, n) == sustained(a, f),
    decreases abs(t0 - sustained(a, f)),
{
    if t0 == sustained(a, f) {
        0
    } else {
        let t1 = rate_update(t0, a, f);
        lemma_rate_progress(t0, a, f);
        let n1 = lemma_rate_reaches(t1, a, f);
        lemma_iter_shift(t0, a, f, n1);
        (n1 + 1) as nat
    }
}

/// Once reached, the sustainable value is kept at every later cycle.
proof fn lemma_rate_stays(t0: int, a: int, f: int, n: nat, k: nat)
    requires
        1 <= f,
        0 <= a,
        rate_iter(t0, a, f, n) == sustained(a, f),
        k >= n,
    ensures
        rate_iter(t0, a, f, k) == sustained(a, f),
    decreases k - n,
{
    if k > n {
        lemma_rate_stays(t0, a, f, n, (k - 1) as nat);
        lemma_rate_fixed_point(a, f);
    }
}

/// From cycle `n` on, the target sits exactly at the sustainable value.
pub open spec fn converged_from(t0: int, a: int, f: int, n: nat) -> bool {
    forall|k: nat| k >= n ==> #[trigger] rate_iter(t0, a, f, k) == sustained(a, f)
}

/// Rate controller convergence: starting from an arbitrary target at or
/// above the floor, under a constant measured rate the target reaches the
/// sustainable throughput after a bounded number of cycles and stabilizes
/// there exactly, without oscillating.
pub proof fn lemma_rate_convergence(t0: int, a: int, f: int)
    requires
        1 <= f <= t0,
        0 <= a,
    ensures
        exists|n: nat| #[trigger] converged_from(t0, a, f, n),
{
    let n = lemma_rate_reaches(t0, a, f);
    assert forall|k: nat| k >= n implies #[trigger] rate_iter(t0, a, f, k) == sustained(a, f) by {
        lemma_rate_stays(t0, a, f, n, k);
    }
    assert(converged_from(t0, a, f, n));
}

/// The state the consumer owns for throttling: the desired and the last
/// measured throughput in requests per second, and the floor, one request
/// per active worker.
#[derive(Clone, Copy, Debug, PartialEq, Eq, Structural)]
pub struct RateState {
    pub target_rate: u64,
    pub actual_rate: u64,
    pub floor: u64,
}

impl RateState {
    /// The floor is positive and the target never sinks below it.
    pub open spec fn wf(self) -> bool {
        1 <= self.floor <= self.target_rate
    }

    /// A controller for the given worker count, starting at the requested
    /// target (raised to the floor if it is below it).
    pub fn new(initial_target: u64, workers: u64) -> (r: RateState)
        ensures
            r.wf(),
            r.floor as int == max(workers as int, 1),
            r.target_rate as int == max(initial_target as int, r.floor as int),
            r.actual_rate == 0,
    {
        let floor = if workers > 0 {
            workers
        } else {
            1
        };
        let target = if initial_target > floor {
            initial_target
        } else {
            floor
        };
        RateState { target_rate: target, actual_rate: 0, floor }
    }

    /// One cycle's adjustment from the measured rate.
    pub fn update(&mut self, measured: u64)
        requires
            old(self).wf(),
        ensures
            final(self).wf(),
            final(self).floor == old(self).floor,
            final(self).actual_rate == measured,
            final(self).target_rate as int == rate_update(
                old(self).target_rate as int,
                measured as int,
                old(self).floor as int,
            ),
    {
        let t = self.target_rate;
        let a = measured;
        let f = self.floor;
        let deviated = (a as u128) * 10 < (t as u128) || (a as u128) > (t as u128) * 10;
        if deviated {
            let half = a / 2;
            self.target_rate = if half > f {
                half
            } else {
                f
            };
        } else if a > t {
            let step = if t / 10 > 0 {
                t / 10
            } else {
                1
            };
            let grown: u128 = t as u128 + step as u128;
            self.target_rate = if grown > a as u128 {
                a
            } else {
                grown as u64
            };
        } else if a < t {
            let step = if t / 10 > 0 {
                t / 10
            } else {
                1
            };
            let shrunk = t - step;
            let v = if shrunk > a {
                shrunk
            } else {
                a
            };
            self.target_rate = if v > f {
                v
            } else {
                f
            };
        }
        self.actual_rate = a;
    }
}

/// The per-cycle drain budget: the cycle-duration hint times the target
/// rate, with a floor that prevents starvation on very short cycles, and
/// saturating at the integer limit.
pub open spec fn drain_budget(dt_micros: u64, target: u64, min_budget: u64) -> int {
    let raw = (dt_micros as int) * (target as int) / 1_000_000;
    if raw > u64::MAX {
        u64::MAX as int
    } else if raw < min_budget {
        min_budget as int
    } else {
        raw
    }
}

/// Computes the drain budget for one cycle.
pub fn compute_budget(dt_micros: u64, target: u64, min_budget: u64) -> (b: u64)
    ensures
        b as int == drain_budget(dt_micros, target, min_budget),
{
    proof {
        assert((dt_micros as int) * (target as int) <= u64::MAX * u64::MAX) by (nonlinear_arith)
            requires
                dt_micros <= u64::MAX,
                target <= u64::MAX,
        ;
    }
    let raw: u128 = (dt_micros as u128) * (target as u128) / 1_000_000u128;
    let capped: u64 = if raw > u64::MAX as u128 {
        u64::MAX
    } else {
        raw as u64
    };
    if capped < min_budget {
        min_budget
    } else {
        capped
    }
}

/// The measured throughput in requests per second from a drained count
/// and the elapsed wall-clock time in microseconds (an instantaneous
/// elapsed time counts as one microsecond), saturating at the integer
/// limit.
pub open spec fn measured_rate(drained: int, elapsed_micros: u64) -> int {
    let e: int = if elapsed_micros == 0 {
        1
    } else {
        elapsed_micros as int
    };
    let raw = drained * 1_000_000 / e;
    if raw > u64::MAX {
        u64::MAX as int
    } else {
        raw
    }
}

/// Computes the measured rate for one cycle.
pub fn compute_rate(drained: usize, elapsed_micros: u64) -> (r: u64)
    ensures
        r as int == measured_rate(drained as int, elapsed_micros),
{
    let e: u128 = if elapsed_micros == 0 {
        1
    } else {
        elapsed_micros as u128
    };
    let raw: u128 = (drained as u128) * 1_000_000u128 / e;
    if raw > u64::MAX as u128 {
        u64::MAX
    } else {
        raw as u64
    }
}

} // verus!
