use vstd::prelude::*;

use crate::ClassifierError;
use crate::PacketLoss;
use crate::SCALE;
use crate::lemma_mul_bound;
use crate::lemma_mul_le;
use crate::min_observe;
use crate::running_min;

verus! {

/// Packet loss classifier based on the MBiaz scheme.
///
/// The MBiaz scheme assumes that wireless errors have less influence on
/// delays than congestion errors. In case of `n` lost packets between two
/// consecutively received packets the classifier checks whether the second
/// packet arrived "on time": inside a window whose bounds are multiples of
/// the smallest inter-arrival time observed so far, shifted by the configured
/// lower and upper window limits.
#[derive(Debug, Clone, Copy)]
pub struct MBiaz {
    /// Bias that adjusts the lower boundary of the wireless window,
    /// fixed-point.
    pub lower_window_limit: i64,
    /// Bias that adjusts the upper boundary of the wireless window,
    /// fixed-point.
    pub upper_window_limit: i64,
    /// Smallest inter-arrival time observed so far; `None` before the first
    /// observation, so the first observation always becomes the minimum.
    pub interarrival_time_min: Option<i64>,
}

impl MBiaz {
    /// The configuration invariant: the lower window limit does not exceed
    /// the upper one.
    pub open spec fn wf(self) -> bool {
        self.lower_window_limit <= self.upper_window_limit
    }
}

/// Whether an inter-arrival time falls inside the wireless window
/// `[(n + lower) * m, (n + upper) * m)` for minimum `m` and `n` lost packets.
/// Both bounds carry two fixed-point factors, so the observation is compared
/// against them scaled by `SCALE`; the comparison is exact.
pub open spec fn mbiaz_wireless(c: MBiaz, m: i64, iat: i64, n: u32) -> bool {
    &&& (n * SCALE + c.lower_window_limit) * m <= iat * SCALE
    &&& iat * SCALE < (n * SCALE + c.upper_window_limit) * m
}

/// The verdict of one MBiaz classification with `n >= 1` lost packets: the
/// loss is wireless exactly when the observation falls inside the window
/// around the updated running minimum.
pub open spec fn mbiaz_verdict(c: MBiaz, iat: i64, n: u32) -> PacketLoss {
    if mbiaz_wireless(c, running_min(c.interarrival_time_min, iat), iat, n) {
        PacketLoss::Wireless
    } else {
        PacketLoss::Congestion
    }
}

/// One MBiaz classification step: the successor state and the outcome. A call
/// with a zero loss count is refused and changes nothing; any other call
/// folds the observation into the running minimum and classifies against the
/// window.
pub open spec fn mbiaz_step(c: MBiaz, iat: i64, n: u32) -> (MBiaz, Result<
    PacketLoss,
    ClassifierError,
>) {
    if n == 0 {
        (c, Err(ClassifierError::InvalidArgument))
    } else {
        (
            MBiaz {
                interarrival_time_min: Some(running_min(c.interarrival_time_min, iat)),
                ..c
            },
            Ok(mbiaz_verdict(c, iat, n)),
        )
    }
}

/// The outcomes of a sequence of classifications, each step feeding its
/// successor state to the next: one inter-arrival time and loss count pair
/// per call.
pub open spec fn mbiaz_run(c: MBiaz, obs: Seq<(i64, u32)>) -> Seq<
    Result<PacketLoss, ClassifierError>,
>
    decreases obs.len(),
{
    if obs.len() == 0 {
        Seq::empty()
    } else {
        let first = mbiaz_step(c, obs[0].0, obs[0].1);
        seq![first.1] + mbiaz_run(first.0, obs.skip(1))
    }
}

/// Classification is deterministic: two instances in the same state map the
/// same sequence of observations to the same sequence of outcomes.
pub proof fn lemma_mbiaz_deterministic(c1: MBiaz, c2: MBiaz, obs: Seq<(i64, u32)>)
    requires
        c1 == c2,
    ensures
        mbiaz_run(c1, obs) == mbiaz_run(c2, obs),
{
}

/// The running minimum never increases across calls, the window limits never
/// change, and the width of the wireless window is `(upper - lower)` times
/// the minimum: for a fixed loss count the accepted interval moves only
/// through changes of the minimum.
pub proof fn lemma_mbiaz_window_monotone(c: MBiaz, iat: i64, n: u32, m0: i64)
    requires
        n >= 1,
        c.interarrival_time_min == Some(m0),
    ensures
        mbiaz_step(c, iat, n).0.interarrival_time_min == Some(
            running_min(c.interarrival_time_min, iat),
        ),
        running_min(c.interarrival_time_min, iat) <= m0,
        mbiaz_step(c, iat, n).0.lower_window_limit == c.lower_window_limit,
        mbiaz_step(c, iat, n).0.upper_window_limit == c.upper_window_limit,
        (n * SCALE + c.upper_window_limit) * running_min(c.interarrival_time_min, iat) - (n * SCALE
            + c.lower_window_limit) * running_min(c.interarrival_time_min, iat) == (
        c.upper_window_limit - c.lower_window_limit) * running_min(c.interarrival_time_min, iat),
{
    let m = running_min(c.interarrival_time_min, iat);
    assert((n * SCALE + c.upper_window_limit) * m - (n * SCALE + c.lower_window_limit) * m == (
    c.upper_window_limit - c.lower_window_limit) * m) by (nonlinear_arith);
}

impl Default for MBiaz {
    /// The default configuration: window limits of one and one and a quarter
    /// packet spacings.
    fn default() -> (c: MBiaz)
        ensures
            c.lower_window_limit == SCALE,
            c.upper_window_limit == 1_250_000i64,
            c.interarrival_time_min is None,
            c.wf(),
    {
        MBiaz {
            lower_window_limit: SCALE,
            upper_window_limit: 1_250_000,
            interarrival_time_min: None,
        }
    }
}

impl MBiaz {
    /// Creates a new packet loss classifier based on the MBiaz scheme.
    ///
    /// `lower_window_limit` and `upper_window_limit` are fixed-point biases
    /// that adjust the boundaries of the wireless window. Construction is
    /// refused exactly when the lower limit exceeds the upper one.
    pub fn new(lower_window_limit: i64, upper_window_limit: i64) -> (r: Result<
        MBiaz,
        ClassifierError,
    >)
        ensures
            lower_window_limit > upper_window_limit ==> r == Err::<MBiaz, ClassifierError>(
                ClassifierError::InvalidConfiguration,
            ),
            lower_window_limit <= upper_window_limit ==> r == Ok::<MBiaz, ClassifierError>(
                MBiaz { lower_window_limit, upper_window_limit, interarrival_time_min: None },
            ),
    {
        if lower_window_limit > upper_window_limit {
            Err(ClassifierError::InvalidConfiguration)
        } else {
            Ok(MBiaz { lower_window_limit, upper_window_limit, interarrival_time_min: None })
        }
    }

    /// Classifies whether the `num_lost_packets` lost packets were lost due
    /// to congestion or due to wireless errors, from the inter-arrival time
    /// between the two packets received around the loss burst.
    ///
    /// The call is refused, and the classifier left unchanged, exactly when
    /// `num_lost_packets` is zero: the scheme is only meaningful across a gap
    /// of at least one lost packet.
    pub fn classify(&mut self, interarrival_time: i64, num_lost_packets: u32) -> (r: Result<
        PacketLoss,
        ClassifierError,
    >)
        ensures
            (*final(self), r) == mbiaz_step(*old(self), interarrival_time, num_lost_packets),
            old(self).wf() ==> final(self).wf(),
    {
        if num_lost_packets == 0 {
            return Err(ClassifierError::InvalidArgument);
        }
        let m: i64 = min_observe(self.interarrival_time_min, interarrival_time);
        self.interarrival_time_min = Some(m);

        proof {
            lemma_mul_le(num_lost_packets as int, SCALE as int, u32::MAX as int, SCALE as int);
        }
        let lower_coeff: i128 = num_lost_packets as i128 * SCALE as i128
            + self.lower_window_limit as i128;
        let upper_coeff: i128 = num_lost_packets as i128 * SCALE as i128
            + self.upper_window_limit as i128;
        proof {
            // The window coefficients stay within 2^63 + 2^53, so their
            // products with the minimum fit comfortably in 128 bits.
            lemma_mul_bound(
                lower_coeff as int,
                m as int,
                9232379236109516800,
                9223372036854775808,
            );
            lemma_mul_bound(
                upper_coeff as int,
                m as int,
                9232379236109516800,
                9223372036854775808,
            );
        }
        let lower_bound: i128 = lower_coeff * m as i128;
        let upper_bound: i128 = upper_coeff * m as i128;
        let observed: i128 = interarrival_time as i128 * SCALE as i128;
        if lower_bound <= observed && observed < upper_bound {
            Ok(PacketLoss::Wireless)
        } else {
            Ok(PacketLoss::Congestion)
        }
    }
}

} // verus!
