use vstd::prelude::*;

use crate::ClassifierError;
use crate::PacketLoss;
use crate::SCALE;
use crate::lemma_div_bound;
use crate::lemma_mul_le;
use crate::lemma_mul_mono;

verus! {

/// Packet loss classifier based on the Trend scheme.
///
/// Threshold schemes such as ZigZag and Spike rely on the absolute ROTT and
/// perform unreliably when the ROTT hovers around their thresholds. The Trend
/// scheme instead watches whether the delay is in an ascending phase: a loss
/// observed while delay is still rising is attributed to congestion, any
/// other loss to wireless error. The score `s_f` is an exponentially decaying
/// estimate of the fraction of recent observations that were increases.
#[derive(Debug, Clone, Copy)]
pub struct Trend {
    /// The ROTT of the previous observation, fixed-point.
    pub previous_rott: i64,
    /// Exponential decay factor weighting the newest observation,
    /// fixed-point, in `[0, SCALE]`.
    pub gamma: i64,
    /// Score above which the delay counts as ascending, fixed-point, in
    /// `[0, SCALE]`.
    pub s_threshold: i64,
    /// Exponentially smoothed ascending-trend score, fixed-point, in
    /// `[0, SCALE]`.
    pub s_f: i64,
}

impl Trend {
    /// The invariant: the decay factor and the threshold are fractions, and
    /// the smoothed score, as their convex combination of indicators, stays
    /// one as well.
    pub open spec fn wf(self) -> bool {
        &&& 0 <= self.gamma <= SCALE
        &&& 0 <= self.s_threshold <= SCALE
        &&& 0 <= self.s_f <= SCALE
    }
}

/// The smoothed ascending-trend score after one observation:
/// `s_f * (1 - gamma)`, plus `gamma` when the ROTT rose above the previous
/// one. The fixed-point update rounds toward negative infinity.
pub open spec fn trend_score_after(t: Trend, rott: i64) -> int {
    ((SCALE - t.gamma) * t.s_f + if rott > t.previous_rott {
        t.gamma * SCALE
    } else {
        0
    }) / (SCALE as int)
}

/// One Trend classification step: the successor state and the outcome. A
/// negative ROTT is refused and changes nothing; any other observation
/// updates the score and the previous ROTT, and the loss counts as congestion
/// exactly when the updated score exceeds the threshold.
pub open spec fn trend_step(t: Trend, rott: i64) -> (Trend, Result<
    PacketLoss,
    ClassifierError,
>) {
    if rott < 0 {
        (t, Err(ClassifierError::InvalidArgument))
    } else {
        let score = trend_score_after(t, rott);
        (
            Trend { previous_rott: rott, s_f: score as i64, ..t },
            Ok(
                if t.s_threshold < score {
                    PacketLoss::Congestion
                } else {
                    PacketLoss::Wireless
                },
            ),
        )
    }
}

/// The outcomes of a sequence of classifications, each step feeding its
/// successor state to the next: one ROTT per call.
pub open spec fn trend_run(t: Trend, obs: Seq<i64>) -> Seq<Result<PacketLoss, ClassifierError>>
    decreases obs.len(),
{
    if obs.len() == 0 {
        Seq::empty()
    } else {
        let first = trend_step(t, obs[0]);
        seq![first.1] + trend_run(first.0, obs.skip(1))
    }
}

/// Classification is deterministic: two instances in the same state map the
/// same sequence of observations to the same sequence of outcomes.
pub proof fn lemma_trend_deterministic(t1: Trend, t2: Trend, obs: Seq<i64>)
    requires
        t1 == t2,
    ensures
        trend_run(t1, obs) == trend_run(t2, obs),
{
}

impl Default for Trend {
    /// The default configuration: a decay factor of one thirtieth, at
    /// fixed-point resolution, and a threshold of two fifths.
    fn default() -> (t: Trend)
        ensures
            t.previous_rott == 0,
            t.gamma == 33_333i64,
            t.s_threshold == 400_000i64,
            t.s_f == 0,
            t.wf(),
    {
        Trend { previous_rott: 0, gamma: 33_333, s_threshold: 400_000, s_f: 0 }
    }
}

impl Trend {
    /// Creates a new packet loss classifier based on the Trend scheme.
    ///
    /// `gamma` is the exponential decay factor that weights the newest
    /// observation and `s_threshold` the score above which the delay counts
    /// as ascending, both fixed-point fractions. Construction is refused
    /// exactly when either lies outside `[0, SCALE]`.
    pub fn new(gamma: i64, s_threshold: i64) -> (r: Result<Trend, ClassifierError>)
        ensures
            !(0 <= gamma <= SCALE && 0 <= s_threshold <= SCALE) ==> r == Err::<
                Trend,
                ClassifierError,
            >(ClassifierError::InvalidConfiguration),
            0 <= gamma <= SCALE && 0 <= s_threshold <= SCALE ==> r == Ok::<
                Trend,
                ClassifierError,
            >(Trend { previous_rott: 0, gamma, s_threshold, s_f: 0 }),
    {
        if 0 <= gamma && gamma <= SCALE && 0 <= s_threshold && s_threshold <= SCALE {
            Ok(Trend { previous_rott: 0, gamma, s_threshold, s_f: 0 })
        } else {
            Err(ClassifierError::InvalidConfiguration)
        }
    }

    /// Classifies the reason of packet loss based on the ROTT of the packet
    /// received after the loss.
    ///
    /// The call is refused, and the classifier left unchanged, exactly when
    /// `rott` is negative.
    pub fn classify(&mut self, rott: i64) -> (r: Result<PacketLoss, ClassifierError>)
        requires
            old(self).wf(),
        ensures
            (*final(self), r) == trend_step(*old(self), rott),
            final(self).wf(),
    {
        if rott < 0 {
            return Err(ClassifierError::InvalidArgument);
        }
        let ascending: bool = rott > self.previous_rott;
        proof {
            lemma_mul_le((SCALE - self.gamma) as int, self.s_f as int, SCALE as int, SCALE as int);
            lemma_mul_le(self.gamma as int, SCALE as int, SCALE as int, SCALE as int);
            lemma_mul_mono(self.s_f as int, SCALE as int, (SCALE - self.gamma) as int);
        }
        let num: u128 = (SCALE - self.gamma) as u128 * self.s_f as u128 + if ascending {
            self.gamma as u128 * SCALE as u128
        } else {
            0
        };
        proof {
            lemma_div_bound(num as int, SCALE as int, SCALE as int);
        }
        let score: u128 = num / (SCALE as u128);
        self.s_f = score as i64;
        self.previous_rott = rott;
        if self.s_threshold < self.s_f {
            Ok(PacketLoss::Congestion)
        } else {
            Ok(PacketLoss::Wireless)
        }
    }
}

} // verus!
