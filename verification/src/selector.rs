//! Selector resolution and software debounce.
//!
//! `resolve` turns an ordered list of mutually-exclusive switch readings
//! into at most one logical value: the earliest asserted entry wins.
//! `Debouncer` commits a reading only after it has repeated identically for
//! a configured number of consecutive polls, rejecting single-poll contact
//! bounce; the fixed polling period itself is the debounce window.

use vstd::prelude::*;

verus! {

/// The variant of the first asserted entry, scanning in list order.
pub open spec fn first_asserted<V>(s: Seq<(bool, V)>) -> Option<V>
    decreases s.len(),
{
    if s.len() == 0 {
        None
    } else if s[0].0 {
        Some(s[0].1)
    } else {
        first_asserted(s.drop_first())
    }
}

/// An entry at `i` whose whole prefix is unasserted is the resolution.
proof fn lemma_first_asserted_at<V>(s: Seq<(bool, V)>, i: int)
    requires
        0 <= i < s.len(),
        forall|k: int| 0 <= k < i ==> !(#[trigger] s[k]).0,
        s[i].0,
    ensures
        first_asserted(s) == Some(s[i].1),
    decreases i,
{
    if i > 0 {
        lemma_first_asserted_at(s.drop_first(), i - 1);
    }
}

/// With no entry asserted the resolution is `None`.
proof fn lemma_first_asserted_none<V>(s: Seq<(bool, V)>)
    requires
        forall|k: int| 0 <= k < s.len() ==> !(#[trigger] s[k]).0,
    ensures
        first_asserted(s) == None::<V>,
    decreases s.len(),
{
    if s.len() > 0 {
        lemma_first_asserted_none(s.drop_first());
    }
}

/// Resolve an ordered list of `(asserted, variant)` readings: the variant
/// of the first asserted entry, or `None` when no entry is asserted. If
/// several entries are asserted simultaneously the earliest in the fixed
/// order wins — a defined tie-break, not an error.
pub fn resolve<V: Copy>(pins: &Vec<(bool, V)>) -> (r: Option<V>)
    ensures
        r == first_asserted(pins@),
{
    let n: usize = pins.len();
    for i in 0..n
        invariant
            n == pins@.len(),
            forall|k: int| 0 <= k < i ==> !(#[trigger] pins@[k]).0,
    {
        if pins[i].0 {
            proof {
                lemma_first_asserted_at(pins@, i as int);
            }
            return Some(pins[i].1);
        }
    }
    proof {
        lemma_first_asserted_none(pins@);
    }
    None
}

/// Debounce state for one selector, over dense reading codes.
///
/// A raw reading must repeat identically for `threshold` consecutive polls
/// before it is committed; the stability counter resets whenever the raw
/// reading changes. `stable == 0` means no poll has been seen yet.
#[derive(Clone, Copy, Debug, PartialEq, Eq, Structural)]
pub struct Debouncer {
    pub threshold: u8,
    pub last_raw: u8,
    pub stable: u8,
    pub committed: u8,
}

impl Debouncer {
    pub open spec fn wf(self) -> bool {
        &&& self.threshold >= 1
        &&& self.stable <= self.threshold
    }

    /// The whole effect of one poll on the debounce state.
    pub open spec fn poll_transition(self, raw: u8) -> Debouncer {
        let stable = if self.stable > 0 && raw == self.last_raw {
            if self.stable < self.threshold {
                (self.stable + 1) as u8
            } else {
                self.threshold
            }
        } else {
            1u8
        };
        Debouncer {
            threshold: self.threshold,
            last_raw: raw,
            stable,
            committed: if stable >= self.threshold {
                raw
            } else {
                self.committed
            },
        }
    }

    /// A fresh debouncer: nothing polled yet, `initial` committed.
    pub fn new(threshold: u8, initial: u8) -> (r: Debouncer)
        requires
            threshold >= 1,
        ensures
            r == (Debouncer { threshold, last_raw: initial, stable: 0u8, committed: initial }),
            r.wf(),
    {
        Debouncer { threshold, last_raw: initial, stable: 0, committed: initial }
    }

    /// Feed one raw reading; returns the committed reading after the poll.
    pub fn poll(&mut self, raw: u8) -> (r: u8)
        requires
            old(self).wf(),
        ensures
            *final(self) == old(self).poll_transition(raw),
            final(self).wf(),
            r == final(self).committed,
    {
        if self.stable > 0 && raw == self.last_raw {
            if self.stable < self.threshold {
                self.stable = self.stable + 1;
            }
        } else {
            self.stable = 1;
        }
        self.last_raw = raw;
        if self.stable >= self.threshold {
            self.committed = raw;
        }
        self.committed
    }
}

/// The debounce state after a whole sequence of polls.
pub open spec fn run_polls(d: Debouncer, raws: Seq<u8>) -> Debouncer
    decreases raws.len(),
{
    if raws.len() == 0 {
        d
    } else {
        run_polls(d, raws.drop_last()).poll_transition(raws.last())
    }
}

/// Single-poll contact bounce is rejected: with a threshold of at least
/// two, one poll of a reading that does not continue the current stable
/// run leaves the committed reading unchanged.
pub proof fn lemma_bounce_rejected(d: Debouncer, raw: u8)
    requires
        d.wf(),
        d.threshold >= 2,
        d.stable == 0 || raw != d.last_raw,
    ensures
        d.poll_transition(raw).committed == d.committed,
{
}

/// A reading committed once stays committed while the same raw reading
/// keeps arriving: further identical polls never revert the commitment.
pub proof fn lemma_stable_commit_holds(d: Debouncer, raw: u8)
    requires
        d.wf(),
        d.committed == raw,
        d.last_raw == raw,
        d.stable >= 1,
    ensures
        d.poll_transition(raw).committed == raw,
{
}

proof fn lemma_repeat_polls_progress(d: Debouncer, raw: u8, m: nat)
    requires
        d.wf(),
    ensures
        ({
            let e = run_polls(d, Seq::new(m, |i: int| raw));
            &&& e.threshold == d.threshold
            &&& e.wf()
            &&& m >= 1 ==> e.last_raw == raw
            &&& m >= 1 ==> e.stable >= (if m < d.threshold { m as int } else { d.threshold as int })
            &&& m >= d.threshold ==> e.committed == raw
        }),
    decreases m,
{
    if m >= 1 {
        lemma_repeat_polls_progress(d, raw, (m - 1) as nat);
        assert(Seq::new(m, |i: int| raw).drop_last() =~= Seq::new((m - 1) as nat, |i: int| raw));
    }
}

/// A reading that repeats identically for the configured number of
/// consecutive polls is committed, whatever the debounce state was before
/// the run began.
pub proof fn lemma_stable_reading_commits(d: Debouncer, raw: u8, n: nat)
    requires
        d.wf(),
        n >= d.threshold,
    ensures
        run_polls(d, Seq::new(n, |i: int| raw)).committed == raw,
{
    lemma_repeat_polls_progress(d, raw, n);
}

} // verus!
