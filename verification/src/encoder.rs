//! Quadrature encoder decode: wraparound-correct delta and velocity.
//!
//! The hardware position counter is a free-running modulo-`N` register
//! (`N` = pulses per revolution). `EncoderTracker` turns a raw `(count,
//! direction)` reading plus the monotonic time into a directionally-correct
//! signed delta, disambiguating true direction across the wrap boundary,
//! and an exact velocity ratio. All counter arithmetic is modular and is
//! proved never to overflow.

use vstd::prelude::*;
use vstd::arithmetic::div_mod::{
    lemma_fundamental_div_mod,
    lemma_mod_bound,
    lemma_mod_multiples_basic,
    lemma_mod_multiples_vanish,
};

verus! {

/// The count direction the hardware reports alongside the counter.
#[derive(Clone, Copy, Debug, PartialEq, Eq, Structural)]
pub enum Direction {
    Up,
    Down,
}

/// An exact rate: `counts` encoder counts over `ticks` time units of the
/// monotonic clock. Kept as a ratio so no precision is lost and no
/// division is performed in the core.
#[derive(Clone, Copy, Debug, PartialEq, Eq, Structural)]
pub struct Velocity {
    pub counts: i32,
    pub ticks: u64,
}

/// One decoded reading. Transient: produced and consumed within a single
/// task invocation, never persisted.
#[derive(Clone, Copy, Debug, PartialEq, Eq, Structural)]
pub struct EncoderSample {
    /// Signed position change since the previous sample, mapped into
    /// `[-N/2, N/2)` to disambiguate direction across the wrap boundary.
    pub delta: i32,
    /// Direction flag as the hardware reported it, passed through.
    pub direction: Direction,
    /// The monotonic time at which the reading was taken.
    pub timestamp: u64,
    /// `None` when no time elapsed since the previous sample (re-sampled
    /// faster than the clock resolution): the delta is still valid, but a
    /// rate cannot be computed without dividing by zero.
    pub velocity: Option<Velocity>,
}

/// Position change modulo `n`, in `[0, n)`.
pub open spec fn wrapped_delta(prev: int, new: int, n: int) -> int
    recommends
        n >= 1,
{
    (new - prev) % n
}

/// The wrapped delta mapped into the signed range that puts the true
/// direction beyond doubt: deltas of `n/2` or more counts per sample are
/// read as motion in the negative direction.
pub open spec fn signed_delta(prev: int, new: int, n: int) -> int
    recommends
        n >= 1,
{
    let r = wrapped_delta(prev, new, n);
    if 2 * r >= n {
        r - n
    } else {
        r
    }
}

/// The signed delta loses nothing: it is congruent modulo `n` to the raw
/// count difference, and lies in the signed window `[-n/2, n/2)`.
pub proof fn lemma_signed_delta_congruent(prev: int, new: int, n: int)
    requires
        n >= 1,
    ensures
        (signed_delta(prev, new, n) - (new - prev)) % n == 0,
        -n <= 2 * signed_delta(prev, new, n) < n,
{
    let d = new - prev;
    let raw = d % n;
    let q = d / n;
    lemma_mod_bound(d, n);
    lemma_fundamental_div_mod(d, n);
    if 2 * raw >= n {
        lemma_mod_multiples_basic(-q - 1, n);
        assert(raw - n - d == (-q - 1) * n) by (nonlinear_arith)
            requires
                d == n * q + raw,
        ;
    } else {
        lemma_mod_multiples_basic(-q, n);
        assert(raw - d == (-q) * n) by (nonlinear_arith)
            requires
                d == n * q + raw,
        ;
    }
}

/// Two values of the signed window that are congruent modulo `n` are
/// equal: the window holds exactly one representative of each residue.
pub proof fn lemma_signed_window_unique(x: int, y: int, n: int)
    requires
        n >= 1,
        (x - y) % n == 0,
        -n < x - y < n,
    ensures
        x == y,
{
    let k = x - y;
    lemma_fundamental_div_mod(k, n);
    let q = k / n;
    assert(q == 0) by (nonlinear_arith)
        requires
            k == n * q,
            -n < k < n,
            n >= 1,
    ;
}

/// Direction is disambiguated across the wrap boundary: any true movement
/// of less than half a revolution per sample is recovered exactly, sign
/// and all, from the wrapped counter alone.
pub proof fn lemma_delta_recovers_true_motion(prev: int, m: int, n: int)
    requires
        n >= 1,
        -n <= 2 * m < n,
    ensures
        signed_delta(prev, prev + m, n) == m,
{
    lemma_signed_delta_congruent(prev, prev + m, n);
    lemma_signed_window_unique(signed_delta(prev, prev + m, n), m, n);
}

/// Tracks the previous counter reading and sample time between calls.
#[derive(Clone, Copy, Debug, PartialEq, Eq, Structural)]
pub struct EncoderTracker {
    /// The counter modulus `N` (pulses per revolution); at least 1.
    pub modulus: u16,
    /// The previous raw count, reduced modulo `modulus`.
    pub prev_count: u16,
    /// The monotonic time of the previous sample.
    pub prev_time: u64,
}

impl EncoderTracker {
    pub open spec fn wf(self) -> bool {
        &&& self.modulus >= 1
        &&& self.prev_count < self.modulus
    }

    pub fn new(modulus: u16, initial_count: u16, now: u64) -> (r: EncoderTracker)
        requires
            modulus >= 1,
        ensures
            r.wf(),
            r.modulus == modulus,
            r.prev_count == initial_count as int % modulus as int,
            r.prev_time == now,
    {
        EncoderTracker { modulus, prev_count: initial_count % modulus, prev_time: now }
    }

    /// Decode one raw hardware reading taken at monotonic time `now`.
    ///
    /// The delta is `(new_count - prev_count) mod N` mapped into
    /// `[-N/2, N/2)`; the velocity is the exact ratio of that delta over
    /// the elapsed time, or unavailable when no time elapsed. The counter
    /// arithmetic is modular throughout and cannot panic.
    pub fn sample(&mut self, new_count: u16, direction: Direction, now: u64) -> (s: EncoderSample)
        requires
            old(self).wf(),
            now >= old(self).prev_time,
        ensures
            final(self).wf(),
            final(self).modulus == old(self).modulus,
            final(self).prev_count == new_count as int % old(self).modulus as int,
            final(self).prev_time == now,
            s.delta == signed_delta(
                old(self).prev_count as int,
                new_count as int,
                old(self).modulus as int,
            ),
            -(old(self).modulus as int) <= 2 * s.delta < old(self).modulus as int,
            s.direction == direction,
            s.timestamp == now,
            s.velocity == if now == old(self).prev_time {
                None::<Velocity>
            } else {
                Some(Velocity { counts: s.delta, ticks: (now - old(self).prev_time) as u64 })
            },
    {
        let n: u32 = self.modulus as u32;
        let prev: u32 = self.prev_count as u32;
        let reduced: u32 = (new_count as u32) % n;
        let raw: u32 = (reduced + n - prev) % n;
        proof {
            let ni = n as int;
            let newi = new_count as int;
            let previ = prev as int;
            lemma_mod_bound(newi, ni);
            lemma_mod_bound(reduced as int + ni - previ, ni);
            // new_count == n * (new_count / n) + reduced, so the reduction
            // and the added period both vanish modulo n.
            lemma_mod_multiples_vanish(newi / ni, reduced as int - previ, ni);
            lemma_mod_multiples_vanish(1, reduced as int - previ, ni);
            lemma_fundamental_div_mod(newi, ni);
            assert(ni * (newi / ni) + (reduced as int - previ) == newi - previ);
            assert(raw as int == wrapped_delta(previ, newi, ni));
        }
        let delta: i32 = if 2 * raw >= n {
            raw as i32 - n as i32
        } else {
            raw as i32
        };
        let elapsed: u64 = now - self.prev_time;
        let velocity: Option<Velocity> = if elapsed == 0 {
            None
        } else {
            Some(Velocity { counts: delta, ticks: elapsed })
        };
        self.prev_count = reduced as u16;
        self.prev_time = now;
        EncoderSample { delta, direction, timestamp: now, velocity }
    }
}

} // verus!
