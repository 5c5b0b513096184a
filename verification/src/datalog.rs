//! Stage-1 characterization data logging: trigger-edge interval statistics.
//!
//! The interval statistics are the tooth-pattern discovery tool — a
//! missing-tooth gap shows up as a period ratio of ~(1 + missing) between
//! consecutive edges, without assuming any wheel geometry up front. The
//! analog scaling half of the logger is floating point and lives with the
//! firmware.

use vstd::prelude::*;

verus! {

/// Which trigger line an edge came from.
#[derive(Clone, Copy, Debug, PartialEq, Eq)]
pub enum TriggerLine {
    Crank,
    Cam,
}

/// A timestamped trigger edge.
#[derive(Clone, Copy, Debug, PartialEq, Eq)]
pub struct EdgeEvent {
    pub t_us: u64,
    pub line: TriggerLine,
    pub rising: bool,
}

/// Interval statistics for one trigger line.
///
/// The gap ratio (this period ÷ previous period, ×100 fixed point) is the
/// Phase-1 signal: ~100 tooth-to-tooth at steady speed, ~200 entering a
/// single-missing-tooth gap (~300 for two missing), then back under ~50 on
/// the first tooth after the gap.
#[derive(Debug, Default)]
pub struct EdgeIntervals {
    count: u32,
    last_t_us: Option<u64>,
    last_period_us: Option<u32>,
}

/// Derived numbers for one recorded edge.
#[derive(Clone, Copy, Debug, PartialEq, Eq)]
pub struct EdgeReport {
    /// Total edges seen on this line, including this one.
    pub count: u32,
    /// Microseconds since the previous edge.
    pub period_us: u32,
    /// This period ÷ previous period, ×100. Zero when no previous period.
    pub gap_ratio_x100: u32,
}

/// Edge count after one more edge (wrapping at `u32::MAX`).
pub open spec fn next_count(count: u32) -> u32 {
    if count == u32::MAX {
        0
    } else {
        (count + 1) as u32
    }
}

/// Microseconds from `prev` to `t`: zero if time went backwards, capped at
/// `u32::MAX`.
pub open spec fn period_between(prev: u64, t: u64) -> u32 {
    if t <= prev {
        0
    } else if t - prev > u32::MAX {
        u32::MAX
    } else {
        (t - prev) as u32
    }
}

/// `period ÷ previous × 100`, rounded down and capped at `u32::MAX`; zero
/// when there is no non-zero previous period.
pub open spec fn gap_ratio(period: u32, previous: Option<u32>) -> u32 {
    match previous {
        Some(prev) => if prev > 0 {
            if period * 100 / prev as int > u32::MAX {
                u32::MAX
            } else {
                (period * 100 / prev as int) as u32
            }
        } else {
            0
        },
        None => 0,
    }
}

impl EdgeIntervals {
    /// Edges recorded so far (wrapping).
    pub closed spec fn spec_count(&self) -> u32 {
        self.count
    }

    /// Timestamp of the last recorded edge.
    pub closed spec fn last_edge(&self) -> Option<u64> {
        self.last_t_us
    }

    /// Period between the last two recorded edges.
    pub closed spec fn last_period(&self) -> Option<u32> {
        self.last_period_us
    }

    /// No edge recorded yet.
    pub fn new() -> (r: Self)
        ensures
            r.spec_count() == 0,
            r.last_edge() is None,
            r.last_period() is None,
    {
        EdgeIntervals { count: 0, last_t_us: None, last_period_us: None }
    }

    /// Edges recorded so far (wrapping).
    pub fn count(&self) -> (r: u32)
        ensures
            r == self.spec_count(),
    {
        self.count
    }

    /// Record an edge timestamp. Returns `None` for the very first edge on
    /// the line (no period exists yet).
    pub fn record(&mut self, t_us: u64) -> (r: Option<EdgeReport>)
        ensures
            final(self).spec_count() == next_count(old(self).spec_count()),
            final(self).last_edge() == Some(t_us),
            match old(self).last_edge() {
                None => {
                    &&& r is None
                    &&& final(self).last_period() == old(self).last_period()
                },
                Some(prev) => {
                    let period = period_between(prev, t_us);
                    &&& r == Some(
                        EdgeReport {
                            count: next_count(old(self).spec_count()),
                            period_us: period,
                            gap_ratio_x100: gap_ratio(period, old(self).last_period()),
                        },
                    )
                    &&& final(self).last_period() == Some(period)
                },
            },
            r is None <==> old(self).last_edge() is None,
            final(self).spec_count() == (old(self).spec_count() + 1) % 0x1_0000_0000,
            r is Some ==> {
                let prev = old(self).last_edge().unwrap();
                let rep = r.unwrap();
                &&& rep.count == final(self).spec_count()
                &&& t_us < prev ==> rep.period_us == 0
                &&& t_us >= prev && t_us - prev <= u32::MAX ==> rep.period_us == t_us - prev
                &&& t_us >= prev && t_us - prev > u32::MAX ==> rep.period_us == u32::MAX
                &&& final(self).last_period() == Some(rep.period_us)
                &&& match old(self).last_period() {
                    Some(p) => if p > 0 {
                        &&& rep.period_us * 100 < (u32::MAX + 1) * p ==> {
                            &&& rep.gap_ratio_x100 * p <= rep.period_us * 100
                            &&& rep.period_us * 100 < (rep.gap_ratio_x100 + 1) * p
                        }
                        &&& rep.period_us * 100 >= (u32::MAX + 1) * p ==> rep.gap_ratio_x100
                            == u32::MAX
                    } else {
                        rep.gap_ratio_x100 == 0
                    },
                    None => rep.gap_ratio_x100 == 0,
                }
            },
    {
        self.count = self.count.wrapping_add(1);
        let previous = self.last_t_us;
        self.last_t_us = Some(t_us);
        let prev_t = match previous {
            Some(p) => p,
            None => return None,
        };
        let elapsed = t_us.saturating_sub(prev_t);
        let period_us: u32 = if elapsed > u32::MAX as u64 {
            u32::MAX
        } else {
            elapsed as u32
        };
        let gap_ratio_x100: u32 = match self.last_period_us {
            Some(prev) => if prev > 0 {
                let ratio = (period_us as u64 * 100) / prev as u64;
                if ratio > u32::MAX as u64 {
                    u32::MAX
                } else {
                    ratio as u32
                }
            } else {
                0
            },
            None => 0,
        };
        self.last_period_us = Some(period_us);
        proof {
            if let Some(p) = old(self).last_period_us {
                if p > 0 {
                    lemma_gap_ratio_is_floor(period_us, p);
                }
            }
        }
        Some(EdgeReport { count: self.count, period_us, gap_ratio_x100 })
    }
}

/// The gap ratio is `period × 100 ÷ previous` rounded down: the largest
/// whole number `g` with `g × previous ≤ period × 100`, or `u32::MAX` when
/// that number does not fit in 32 bits.
pub proof fn lemma_gap_ratio_is_floor(period: u32, prev: u32)
    requires
        prev > 0,
    ensures
        period * 100 < (u32::MAX + 1) * prev ==> {
            &&& gap_ratio(period, Some(prev)) * prev <= period * 100
            &&& period * 100 < (gap_ratio(period, Some(prev)) + 1) * prev
        },
        period * 100 >= (u32::MAX + 1) * prev ==> gap_ratio(period, Some(prev)) == u32::MAX,
{
    let x = period * 100;
    let d = prev as int;
    let q = x / d;
    assert(q * d <= x < (q + 1) * d) by (nonlinear_arith)
        requires
            d > 0,
            q == x / d,
    ;
    assert(x < (u32::MAX + 1) * d ==> q <= u32::MAX) by (nonlinear_arith)
        requires
            d > 0,
            q * d <= x,
    ;
    assert(x >= (u32::MAX + 1) * d ==> q > u32::MAX) by (nonlinear_arith)
        requires
            d > 0,
            x < (q + 1) * d,
    ;
}

/// The missing-tooth signature: a period `n` times the previous one reads
/// as `100 × n` (200 for one missing tooth, 300 for two), and the tooth
/// after a gap of `n` periods reads as `100 ÷ n` (50 after a single gap).
pub proof fn lemma_gap_ratio_signature(period: u32, n: u32)
    requires
        period > 0,
        n > 0,
        period * n <= u32::MAX,
        100 * n <= u32::MAX,
    ensures
        gap_ratio((period * n) as u32, Some(period)) == 100 * n,
        gap_ratio(period, Some((period * n) as u32)) == 100int / (n as int),
{
    let pn = (period * n) as u32;
    assert(pn * 100 / (period as int) == 100 * n) by (nonlinear_arith)
        requires
            period > 0,
            pn == period * n,
    ;
    assert(period * 100 / (pn as int) == 100int / (n as int)) by (nonlinear_arith)
        requires
            pn == period * n,
            period > 0,
            n > 0,
    {
        vstd::arithmetic::div_mod::lemma_div_denominator(100, n as int, period as int);
    }
}

} // verus!
