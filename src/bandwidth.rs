//! Bandwidth normalisation against the highest rate seen since the last reset.
use vstd::prelude::*;

verus! {

/// The ceiling after a rate is observed: the larger of the two.
pub open spec fn ceiling_step(ceiling: u64, rate: u64) -> u64 {
    if rate > ceiling {
        rate
    } else {
        ceiling
    }
}

/// A rate as a percentage of a ceiling, rounded down.
pub open spec fn percent_of(rate: u64, ceiling: u64) -> int {
    rate * 100 / ceiling as int
}

/// The ceiling after observing `rates` in order, starting from `start`.
pub open spec fn ceiling_after(start: u64, rates: Seq<u64>) -> u64
    decreases rates.len(),
{
    if rates.len() == 0 {
        start
    } else {
        ceiling_step(ceiling_after(start, rates.drop_last()), rates.last())
    }
}

/// The highest transmit and receive rates seen, in bytes per second.
#[derive(Clone, Copy, Debug, PartialEq, Eq, Structural)]
pub struct MaxBW {
    pub tx: u64,
    pub rx: u64,
}

/// The percentage of `rate` against the ceiling raised to it, and that ceiling.
fn normalize(ceiling: u64, rate: u64) -> (r: (u64, i8))
    requires
        ceiling >= 1,
    ensures
        r.0 == ceiling_step(ceiling, rate),
        r.1 as int == percent_of(rate, r.0),
        0 <= r.1 <= 100,
        rate >= ceiling ==> r.1 == 100,
{
    let c: u64 = if rate > ceiling {
        rate
    } else {
        ceiling
    };
    let q: u128 = rate as u128 * 100 / c as u128;
    assert(rate as int * 100 / c as int <= 100) by (nonlinear_arith)
        requires
            rate <= c,
            c >= 1,
    {
        assert(rate as int * 100 <= c as int * 100);
    }
    if rate >= ceiling {
        proof {
            lemma_new_maximum_is_full(ceiling, rate);
        }
    }
    (c, q as i8)
}

impl MaxBW {
    pub open spec fn wf(&self) -> bool {
        self.tx >= 1 && self.rx >= 1
    }

    /// The baseline that a reset restores: both ceilings at 1.
    pub open spec fn baseline() -> MaxBW {
        MaxBW { tx: 1, rx: 1 }
    }

    pub fn new() -> (r: MaxBW)
        ensures
            r == MaxBW::baseline(),
            r.wf(),
    {
        MaxBW { tx: 1, rx: 1 }
    }

    /// Forgets the ceilings, so that they are learnt again.
    pub fn reset(&mut self)
        ensures
            *final(self) == MaxBW::baseline(),
    {
        self.tx = 1;
        self.rx = 1;
    }

    /// Observes a transmit rate: raises the transmit ceiling to it if higher,
    /// and returns the rate as a percentage of the ceiling.
    pub fn observe_tx(&mut self, rate: u64) -> (r: i8)
        requires
            old(self).wf(),
        ensures
            final(self).tx == ceiling_step(old(self).tx, rate),
            final(self).rx == old(self).rx,
            final(self).wf(),
            r as int == percent_of(rate, final(self).tx),
            0 <= r <= 100,
            rate >= old(self).tx ==> r == 100,
    {
        let (c, p) = normalize(self.tx, rate);
        self.tx = c;
        p
    }

    /// Observes a receive rate, as `observe_tx` does for transmission.
    pub fn observe_rx(&mut self, rate: u64) -> (r: i8)
        requires
            old(self).wf(),
        ensures
            final(self).rx == ceiling_step(old(self).rx, rate),
            final(self).tx == old(self).tx,
            final(self).wf(),
            r as int == percent_of(rate, final(self).rx),
            0 <= r <= 100,
            rate >= old(self).rx ==> r == 100,
    {
        let (c, p) = normalize(self.rx, rate);
        self.rx = c;
        p
    }
}

/// After a run of observed rates, the ceiling is the largest of them, or the
/// starting ceiling where none exceeded it.
pub proof fn lemma_ceiling_is_running_max(start: u64, rates: Seq<u64>)
    ensures
        ceiling_after(start, rates) >= start,
        forall|i: int| 0 <= i < rates.len() ==> rates[i] <= ceiling_after(start, rates),
        ceiling_after(start, rates) == start || exists|i: int|
            0 <= i < rates.len() && rates[i] == ceiling_after(start, rates),
    decreases rates.len(),
{
    if rates.len() > 0 {
        let front = rates.drop_last();
        lemma_ceiling_is_running_max(start, front);
        let c = ceiling_after(start, front);
        assert forall|i: int| 0 <= i < rates.len() implies rates[i] <= ceiling_after(start, rates) by {
            if i < rates.len() - 1 {
                assert(rates[i] == front[i]);
            }
        }
        if ceiling_after(start, rates) != start {
            if rates.last() > c {
                assert(rates[rates.len() - 1] == ceiling_after(start, rates));
            } else {
                let j = choose|j: int| 0 <= j < front.len() && front[j] == c;
                assert(rates[j] == front[j]);
            }
        }
    }
}

/// A rate that sets a new ceiling reads as exactly 100 percent.
pub proof fn lemma_new_maximum_is_full(ceiling: u64, rate: u64)
    requires
        ceiling >= 1,
        rate >= ceiling,
    ensures
        percent_of(rate, ceiling_step(ceiling, rate)) == 100,
{
    assert(rate as int * 100 / rate as int == 100) by (nonlinear_arith)
        requires
            rate >= 1,
    ;
}

} // verus!
