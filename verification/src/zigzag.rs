use vstd::prelude::*;

use crate::ClassifierError;
use crate::MAX_OBS;
use crate::PacketLoss;
use crate::SCALE;
use crate::abs_i;
use crate::lemma_div_bound;
use crate::lemma_mul_le;
use crate::lemma_mul_mono;

verus! {

/// Packet loss classifier based on the ZigZag scheme.
///
/// In wireless networks, wireless errors are the most common errors, while
/// congestion usually comes with a higher delay, so a threshold on the ROTT
/// separates the two. The ZigZag scheme keeps an exponentially smoothed mean
/// and deviation of the ROTT and raises the threshold with the number of
/// consecutively lost packets, because a longer loss burst comes with a
/// higher expected ROTT.
///
/// The deviation update `(1 - 2 * alpha) + 2 * alpha * |rott - mean|`
/// deliberately omits the previous deviation term that a bias-free
/// exponential average of the absolute deviation would carry; the scheme is
/// defined by exactly this recurrence, and the contracts state it as it is.
#[derive(Debug, Clone, Copy)]
pub struct ZigZag {
    /// Exponentially smoothed mean of the observed ROTT, fixed-point.
    pub rott_mean: i64,
    /// Smoothed deviation measure of the observed ROTT, fixed-point.
    pub rott_dev: i64,
    /// Weight of the newest observation in the smoothed mean, fixed-point,
    /// in `[0, SCALE]`.
    pub alpha: i64,
}

impl ZigZag {
    /// The invariant: the decay factor is a fraction, and the smoothed mean,
    /// as a convex combination of observations, stays inside the observation
    /// range.
    pub open spec fn wf(self) -> bool {
        &&& 0 <= self.alpha <= SCALE
        &&& 0 <= self.rott_mean <= MAX_OBS
    }
}

/// The smoothed ROTT mean after one observation:
/// `(1 - alpha) * mean + alpha * rott`. The fixed-point update rounds toward
/// negative infinity.
pub open spec fn zigzag_mean_after(z: ZigZag, rott: i64) -> int {
    ((SCALE - z.alpha) * z.rott_mean + z.alpha * rott) / (SCALE as int)
}

/// The deviation measure after one observation:
/// `(1 - 2 * alpha) + 2 * alpha * |rott - mean|` against the already updated
/// mean, its fixed-point product rounding toward negative infinity.
pub open spec fn zigzag_dev_after(z: ZigZag, rott: i64) -> int {
    (SCALE - 2 * z.alpha) + (2 * z.alpha * abs_i(rott - zigzag_mean_after(z, rott))) / (
    SCALE as int)
}

/// Whether a loss burst of `n` packets at the observed ROTT counts as
/// wireless: the threshold rises from `mean - dev` for a single lost packet
/// to `mean + dev / 2` for four or more. The half-deviation comparisons are
/// doubled instead of halved, which keeps them exact.
pub open spec fn zigzag_wireless(rott: int, n: u32, mean: int, dev: int) -> bool {
    if n == 1 {
        rott < mean - dev
    } else if n == 2 {
        2 * rott < 2 * mean - dev
    } else if n == 3 {
        rott < mean
    } else {
        2 * rott < 2 * mean + dev
    }
}

/// The verdict of one ZigZag classification with a valid observation: the
/// loss is wireless exactly when the ROTT stays under the burst-length
/// dependent threshold around the updated statistics.
pub open spec fn zigzag_verdict(z: ZigZag, rott: i64, n: u32) -> PacketLoss {
    if zigzag_wireless(rott as int, n, zigzag_mean_after(z, rott), zigzag_dev_after(z, rott)) {
        PacketLoss::Wireless
    } else {
        PacketLoss::Congestion
    }
}

/// One ZigZag classification step: the successor state and the outcome. A
/// negative ROTT or a zero loss count is refused and changes nothing; any
/// other call updates the smoothed statistics and classifies against the
/// burst-length dependent threshold.
pub open spec fn zigzag_step(z: ZigZag, rott: i64, n: u32) -> (ZigZag, Result<
    PacketLoss,
    ClassifierError,
>) {
    if rott < 0 || n == 0 {
        (z, Err(ClassifierError::InvalidArgument))
    } else {
        (
            ZigZag {
                rott_mean: zigzag_mean_after(z, rott) as i64,
                rott_dev: zigzag_dev_after(z, rott) as i64,
                ..z
            },
            Ok(zigzag_verdict(z, rott, n)),
        )
    }
}

/// The outcomes of a sequence of classifications, each step feeding its
/// successor state to the next: one ROTT and loss count pair per call.
pub open spec fn zigzag_run(z: ZigZag, obs: Seq<(i64, u32)>) -> Seq<
    Result<PacketLoss, ClassifierError>,
>
    decreases obs.len(),
{
    if obs.len() == 0 {
        Seq::empty()
    } else {
        let first = zigzag_step(z, obs[0].0, obs[0].1);
        seq![first.1] + zigzag_run(first.0, obs.skip(1))
    }
}

/// Classification is deterministic: two instances in the same state map the
/// same sequence of observations to the same sequence of outcomes.
pub proof fn lemma_zigzag_deterministic(z1: ZigZag, z2: ZigZag, obs: Seq<(i64, u32)>)
    requires
        z1 == z2,
    ensures
        zigzag_run(z1, obs) == zigzag_run(z2, obs),
{
}

/// For fixed statistics with a non-negative deviation, a longer loss burst
/// only raises the threshold under which a loss counts as wireless: a verdict
/// that is wireless at some burst length stays wireless at every longer one.
pub proof fn lemma_zigzag_threshold_monotone(rott: int, n1: u32, n2: u32, mean: int, dev: int)
    requires
        1 <= n1 <= n2,
        0 <= dev,
    ensures
        zigzag_wireless(rott, n1, mean, dev) ==> zigzag_wireless(rott, n2, mean, dev),
{
}

/// Whenever the observation weight is at most one half, the updated deviation
/// measure is non-negative, whatever was observed; the burst-length
/// thresholds are then ordered as the scheme intends.
pub proof fn lemma_zigzag_dev_nonneg(z: ZigZag, rott: i64)
    requires
        0 <= z.alpha,
        2 * z.alpha <= SCALE,
    ensures
        zigzag_dev_after(z, rott) >= 0,
{
    let a = abs_i(rott - zigzag_mean_after(z, rott));
    lemma_mul_le(2 * z.alpha as int, a, 2 * z.alpha as int, a);
    lemma_div_bound(2 * z.alpha * a, 1_000_000, 2 * z.alpha * a);
}

impl Default for ZigZag {
    /// The default configuration: the newest observation carries one
    /// thirty-second of the weight.
    fn default() -> (z: ZigZag)
        ensures
            z.rott_mean == 0,
            z.rott_dev == 0,
            z.alpha == 31_250i64,
            z.wf(),
    {
        ZigZag { rott_mean: 0, rott_dev: 0, alpha: 31_250 }
    }
}

impl ZigZag {
    /// Creates a new packet loss classifier based on the ZigZag scheme.
    ///
    /// `alpha` is the fixed-point weight of the newest observation in the
    /// smoothed statistics. Construction is refused exactly when it lies
    /// outside `[0, SCALE]`.
    pub fn new(alpha: i64) -> (r: Result<ZigZag, ClassifierError>)
        ensures
            !(0 <= alpha <= SCALE) ==> r == Err::<ZigZag, ClassifierError>(
                ClassifierError::InvalidConfiguration,
            ),
            0 <= alpha <= SCALE ==> r == Ok::<ZigZag, ClassifierError>(
                ZigZag { rott_mean: 0, rott_dev: 0, alpha },
            ),
    {
        if 0 <= alpha && alpha <= SCALE {
            Ok(ZigZag { rott_mean: 0, rott_dev: 0, alpha })
        } else {
            Err(ClassifierError::InvalidConfiguration)
        }
    }

    /// Classifies whether the `num_lost_packets` lost packets were lost due
    /// to congestion or due to wireless errors, from the ROTT of the packet
    /// received after the loss burst.
    ///
    /// The call is refused, and the classifier left unchanged, exactly when
    /// `rott` is negative or `num_lost_packets` is zero.
    pub fn classify(&mut self, rott: i64, num_lost_packets: u32) -> (r: Result<
        PacketLoss,
        ClassifierError,
    >)
        requires
            old(self).wf(),
            rott <= MAX_OBS,
        ensures
            (*final(self), r) == zigzag_step(*old(self), rott, num_lost_packets),
            final(self).wf(),
    {
        if rott < 0 || num_lost_packets == 0 {
            return Err(ClassifierError::InvalidArgument);
        }
        proof {
            lemma_mul_le(
                (SCALE - self.alpha) as int,
                self.rott_mean as int,
                1_000_000,
                1_000_000_000_000,
            );
            lemma_mul_le(self.alpha as int, rott as int, 1_000_000, 1_000_000_000_000);
            lemma_mul_mono(self.rott_mean as int, 1_000_000_000_000, (SCALE - self.alpha) as int);
            lemma_mul_mono(rott as int, 1_000_000_000_000, self.alpha as int);
        }
        let mean_num: u128 = (SCALE - self.alpha) as u128 * self.rott_mean as u128
            + self.alpha as u128 * rott as u128;
        proof {
            lemma_div_bound(mean_num as int, 1_000_000, 1_000_000_000_000);
        }
        let mean_new: i64 = (mean_num / SCALE as u128) as i64;

        let deviation: i64 = if rott >= mean_new {
            rott - mean_new
        } else {
            mean_new - rott
        };
        proof {
            lemma_mul_le(2 * self.alpha as int, deviation as int, 2_000_000, 1_000_000_000_000);
            lemma_mul_mono(deviation as int, 1_000_000_000_000, 2 * self.alpha as int);
        }
        let dev_num: u128 = 2 * self.alpha as u128 * deviation as u128;
        proof {
            lemma_div_bound(dev_num as int, 1_000_000, 2_000_000_000_000);
        }
        let dev_new: i64 = (SCALE - 2 * self.alpha) + (dev_num / SCALE as u128) as i64;

        self.rott_mean = mean_new;
        self.rott_dev = dev_new;

        let wireless: bool = if num_lost_packets == 1 {
            rott < mean_new - dev_new
        } else if num_lost_packets == 2 {
            2 * rott < 2 * mean_new - dev_new
        } else if num_lost_packets == 3 {
            rott < mean_new
        } else {
            2 * rott < 2 * mean_new + dev_new
        };
        if wireless {
            Ok(PacketLoss::Wireless)
        } else {
            Ok(PacketLoss::Congestion)
        }
    }
}

} // verus!
